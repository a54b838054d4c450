//! The GPADC driver: reset, configure, enable, disable, start a conversion,
//! wait for it, read the result.
//!
//! The driver owns the peripheral handle exclusively and is a pure façade:
//! all state lives in the (modelled) hardware registers.  Each operation's
//! contract gives its complete effect as a function of the register block,
//! and the timing obligations — the enable-settling delay and the
//! temperature-sensor warm-up delay — appear in the contracts as exact
//! cycle counts on the busy-wait accumulator.

use vstd::prelude::*;

use crate::config::AdcConfig;
use crate::regs::{
    clear_int_written, ctrl2_written, ctrl3_por, ctrl2_por, ctrl_por, ctrl_written, delayed,
    sel_por, sel_written, trim_por, trim_written, wrap_add_u64, GpAdcCtrl, GpAdcCtrl2, GpAdcCtrl3,
    GpAdcResult, GpAdcSel, GpAdcTrim, GPADC, GP_ADC_EN_DEL_POR, GP_ADC_RESULT_MAX,
};

verus! {

/// Factory-recommended LDO trim code for the 925 mV reference level.
pub const GP_ADC_LDO_LEVEL_925MV: u8 = 0x4;

/// Settling delay after powering the die-temperature sensor:
/// 25 us at the 16 MHz core clock.
pub const TEMP_SENSOR_SETTLE_CYCLES: u32 = 400;

/// Extension trait that constrains the `GPADC` peripheral.
pub trait GpAdcExt {
    /// Constrains the `GPADC` peripheral so it plays nicely with the other
    /// abstractions.
    fn constrain(self) -> GpAdc;
}

impl GpAdcExt for GPADC {
    fn constrain(self) -> (adc: GpAdc)
        ensures
            adc.gpadc == self,
    {
        GpAdc { gpadc: self }
    }
}

/// Driver over the GPADC peripheral.  Holds the only handle to the register
/// block; every operation states its exact effect on it.
pub struct GpAdc {
    pub gpadc: GPADC,
}

/// The control-register value `configure` writes: mode, continuous, chopper
/// and temperature-sensor bits from the configuration, everything else kept.
pub open spec fn configure_ctrl_fields(c: GpAdcCtrl, adc_config: AdcConfig) -> GpAdcCtrl {
    GpAdcCtrl {
        gp_adc_se: adc_config.mode.se_bit(),
        gp_adc_cont: adc_config.continuous,
        die_temp_en: adc_config.enable_die_temp,
        gp_adc_chop: adc_config.chopper,
        ..c
    }
}

/// Complete effect of `configure` on the peripheral.
pub open spec fn configure_spec(p: GPADC, adc_config: AdcConfig) -> GPADC {
    let with_sel = sel_written(p, adc_config.channel_sel_pos, adc_config.channel_sel_neg);
    let with_ctrl = ctrl_written(with_sel, configure_ctrl_fields(with_sel.gp_adc_ctrl_reg, adc_config));
    let settled = if adc_config.enable_die_temp {
        delayed(with_ctrl, TEMP_SENSOR_SETTLE_CYCLES as int)
    } else {
        with_ctrl
    };
    ctrl2_written(
        settled,
        adc_config.attenuation.code(),
        adc_config.averaging.code(),
        adc_config.sample_time.code(),
    )
}

/// Complete effect of `enable` on the peripheral: the enable bit is set and
/// the driver busy-waits four cycles per unit of the hardware-reported
/// enable-settling delay.
pub open spec fn enable_spec(p: GPADC) -> GPADC {
    let q = ctrl_written(p, GpAdcCtrl { gp_adc_en: true, ..p.gp_adc_ctrl_reg });
    delayed(q, 4 * q.gp_adc_ctrl3_reg.gp_adc_en_del)
}

/// Complete effect of `disable` on the peripheral.
pub open spec fn disable_spec(p: GPADC) -> GPADC {
    ctrl_written(p, GpAdcCtrl { gp_adc_en: false, ..p.gp_adc_ctrl_reg })
}

/// Complete effect of `reset` on the peripheral: the five control, trim and
/// selector registers return to their power-on values and any in-flight
/// conversion is abandoned.
pub open spec fn reset_spec(p: GPADC) -> GPADC {
    GPADC {
        gp_adc_ctrl_reg: ctrl_por(),
        gp_adc_ctrl2_reg: ctrl2_por(),
        gp_adc_ctrl3_reg: ctrl3_por(),
        gp_adc_sel_reg: sel_por(),
        gp_adc_trim_reg: trim_por(),
        conversion_polls_left: 0,
        ..p
    }
}

/// Complete effect of `start_conversion` on the peripheral.
pub open spec fn start_spec(p: GPADC) -> GPADC {
    ctrl_written(p, GpAdcCtrl { gp_adc_start: true, ..p.gp_adc_ctrl_reg })
}

/// Complete effect of `init` on the peripheral: reset, set the LDO trim to
/// the 925 mV level, enable, configure.
pub open spec fn init_spec(p: GPADC, adc_config: AdcConfig) -> GPADC {
    configure_spec(
        enable_spec(trim_written(reset_spec(p), GP_ADC_LDO_LEVEL_925MV)),
        adc_config,
    )
}

/// The peripheral once the hardware has finished an in-flight single-shot
/// conversion: the start bit is clear, the sample is latched and the
/// interrupt is pending.  Without one in flight, nothing changes.
pub open spec fn conversion_finished(p: GPADC) -> GPADC {
    if p.gp_adc_ctrl_reg.gp_adc_start {
        GPADC {
            gp_adc_ctrl_reg: (GpAdcCtrl { gp_adc_start: false, ..p.gp_adc_ctrl_reg }),
            gp_adc_result_reg: (GpAdcResult { gp_adc_val: p.next_sample }),
            conversion_polls_left: 0,
            int_pending: true,
            ..p
        }
    } else {
        p
    }
}

/// Everything `configure` controls: the mode, continuous, chopper and
/// temperature bits, both channel selectors, the front-end settings and the
/// trim level.
pub open spec fn config_state(p: GPADC) -> (bool, bool, bool, bool, GpAdcSel, GpAdcCtrl2, GpAdcTrim) {
    (
        p.gp_adc_ctrl_reg.gp_adc_se,
        p.gp_adc_ctrl_reg.gp_adc_cont,
        p.gp_adc_ctrl_reg.gp_adc_chop,
        p.gp_adc_ctrl_reg.die_temp_en,
        p.gp_adc_sel_reg,
        p.gp_adc_ctrl2_reg,
        p.gp_adc_trim_reg,
    )
}

/// The full register file of the peripheral, without the model bookkeeping.
pub open spec fn reg_state(p: GPADC) -> (
    GpAdcCtrl,
    GpAdcCtrl2,
    GpAdcCtrl3,
    GpAdcSel,
    GpAdcTrim,
    GpAdcResult,
    u16,
) {
    (
        p.gp_adc_ctrl_reg,
        p.gp_adc_ctrl2_reg,
        p.gp_adc_ctrl3_reg,
        p.gp_adc_sel_reg,
        p.gp_adc_trim_reg,
        p.gp_adc_result_reg,
        p.gp_adc_clear_int_reg,
    )
}

impl GpAdc {
    /// Well-formedness: the underlying peripheral model is well-formed.
    pub open spec fn wf(self) -> bool {
        self.gpadc.wf()
    }

    /// Bring the ADC up from any state: reset, set the LDO reference to the
    /// factory-recommended 925 mV level, enable (with its settling delay),
    /// then apply the configuration.  Calling it again re-initializes.
    pub fn init(&mut self, adc_config: AdcConfig)
        ensures
            final(self).gpadc == init_spec(old(self).gpadc, adc_config),
            final(self).gpadc.gp_adc_ctrl_reg.gp_adc_en,
            !final(self).gpadc.gp_adc_ctrl_reg.gp_adc_start,
            final(self).gpadc.gp_adc_trim_reg.gp_adc_ldo_level == GP_ADC_LDO_LEVEL_925MV,
            final(self).gpadc.gp_adc_ctrl3_reg == ctrl3_por(),
            final(self).gpadc.busy_wait_cycles == wrap_add_u64(
                old(self).gpadc.busy_wait_cycles,
                4 * (GP_ADC_EN_DEL_POR as int)
                    + (if adc_config.enable_die_temp { TEMP_SENSOR_SETTLE_CYCLES as int } else { 0 }),
            ),
            old(self).wf() ==> final(self).wf(),
    {
        self.reset();
        // Set GP_ADC_LDO_LEVEL to the preferred level of 925 mV.
        self.gpadc.write_trim_ldo(GP_ADC_LDO_LEVEL_925MV);
        self.enable();
        self.configure(adc_config);
    }

    /// Apply a configuration: channel selection, then the mode, continuous,
    /// temperature and chopper bits, then attenuation, averaging and sample
    /// time.  When the temperature sensor is switched into the path, the
    /// driver busy-waits 25 us (400 cycles at 16 MHz) before the remaining
    /// fields are written, to let the sensor settle.
    pub fn configure(&mut self, adc_config: AdcConfig)
        ensures
            final(self).gpadc == configure_spec(old(self).gpadc, adc_config),
            final(self).gpadc.gp_adc_sel_reg.gp_adc_sel_p == adc_config.channel_sel_pos,
            final(self).gpadc.gp_adc_sel_reg.gp_adc_sel_n == adc_config.channel_sel_neg,
            final(self).gpadc.gp_adc_ctrl_reg.gp_adc_se == adc_config.mode.se_bit(),
            final(self).gpadc.gp_adc_ctrl_reg.gp_adc_cont == adc_config.continuous,
            final(self).gpadc.gp_adc_ctrl_reg.die_temp_en == adc_config.enable_die_temp,
            final(self).gpadc.gp_adc_ctrl_reg.gp_adc_chop == adc_config.chopper,
            final(self).gpadc.gp_adc_ctrl2_reg.gp_adc_attn == adc_config.attenuation.code(),
            final(self).gpadc.gp_adc_ctrl2_reg.gp_adc_conv_nrs == adc_config.averaging.code(),
            final(self).gpadc.gp_adc_ctrl2_reg.gp_adc_smpl_time == adc_config.sample_time.code(),
            final(self).gpadc.gp_adc_ctrl_reg.gp_adc_en == old(self).gpadc.gp_adc_ctrl_reg.gp_adc_en,
            final(self).gpadc.gp_adc_ctrl_reg.gp_adc_start == old(self).gpadc.gp_adc_ctrl_reg.gp_adc_start,
            final(self).gpadc.gp_adc_ctrl3_reg == old(self).gpadc.gp_adc_ctrl3_reg,
            final(self).gpadc.gp_adc_trim_reg == old(self).gpadc.gp_adc_trim_reg,
            final(self).gpadc.gp_adc_result_reg == old(self).gpadc.gp_adc_result_reg,
            final(self).gpadc.busy_wait_cycles == wrap_add_u64(
                old(self).gpadc.busy_wait_cycles,
                if adc_config.enable_die_temp { TEMP_SENSOR_SETTLE_CYCLES as int } else { 0 },
            ),
            old(self).wf() ==> final(self).wf(),
    {
        self.gpadc.write_sel(adc_config.channel_sel_pos, adc_config.channel_sel_neg);

        let mut c = self.gpadc.gp_adc_ctrl_reg;
        c.gp_adc_se = adc_config.mode.to_se_bit();
        c.gp_adc_cont = adc_config.continuous;
        c.die_temp_en = adc_config.enable_die_temp;
        c.gp_adc_chop = adc_config.chopper;
        self.gpadc.write_ctrl(c);

        if adc_config.enable_die_temp {
            // The temperature sensor's output is unstable for a hardware-
            // specified warm-up period after being powered: wait 25 us
            // (25 us * 16 MHz = 400 cycles) before touching the rest.
            self.gpadc.delay(TEMP_SENSOR_SETTLE_CYCLES);
        }

        self.gpadc.write_ctrl2(
            adc_config.attenuation.bits(),
            adc_config.averaging.bits(),
            adc_config.sample_time.bits(),
        );
    }

    /// Enable the ADC, then busy-wait exactly four cycles per unit of the
    /// hardware-reported enable-settling delay, so the internal bias and
    /// reference have settled before the first conversion.
    pub fn enable(&mut self)
        ensures
            final(self).gpadc == enable_spec(old(self).gpadc),
            final(self).gpadc.gp_adc_ctrl_reg == (GpAdcCtrl {
                gp_adc_en: true,
                ..old(self).gpadc.gp_adc_ctrl_reg
            }),
            final(self).gpadc.busy_wait_cycles == wrap_add_u64(
                old(self).gpadc.busy_wait_cycles,
                4 * (old(self).gpadc.gp_adc_ctrl3_reg.gp_adc_en_del as int),
            ),
            final(self).gpadc.gp_adc_ctrl2_reg == old(self).gpadc.gp_adc_ctrl2_reg,
            final(self).gpadc.gp_adc_ctrl3_reg == old(self).gpadc.gp_adc_ctrl3_reg,
            final(self).gpadc.gp_adc_sel_reg == old(self).gpadc.gp_adc_sel_reg,
            final(self).gpadc.gp_adc_trim_reg == old(self).gpadc.gp_adc_trim_reg,
            final(self).gpadc.gp_adc_result_reg == old(self).gpadc.gp_adc_result_reg,
            old(self).wf() ==> final(self).wf(),
    {
        let mut c = self.gpadc.gp_adc_ctrl_reg;
        c.gp_adc_en = true;
        self.gpadc.write_ctrl(c);

        let delay_cycles: u32 = 4 * (self.gpadc.gp_adc_ctrl3_reg.gp_adc_en_del as u32);
        self.gpadc.delay(delay_cycles);
    }

    /// Disable the ADC.  No delay is needed; the configuration registers
    /// keep their values, so a later `enable` resumes where it left off.
    pub fn disable(&mut self)
        ensures
            final(self).gpadc == disable_spec(old(self).gpadc),
            final(self).gpadc.gp_adc_ctrl_reg == (GpAdcCtrl {
                gp_adc_en: false,
                ..old(self).gpadc.gp_adc_ctrl_reg
            }),
            final(self).gpadc.busy_wait_cycles == old(self).gpadc.busy_wait_cycles,
            final(self).gpadc.gp_adc_ctrl2_reg == old(self).gpadc.gp_adc_ctrl2_reg,
            final(self).gpadc.gp_adc_ctrl3_reg == old(self).gpadc.gp_adc_ctrl3_reg,
            final(self).gpadc.gp_adc_sel_reg == old(self).gpadc.gp_adc_sel_reg,
            final(self).gpadc.gp_adc_trim_reg == old(self).gpadc.gp_adc_trim_reg,
            final(self).gpadc.gp_adc_result_reg == old(self).gpadc.gp_adc_result_reg,
            old(self).wf() ==> final(self).wf(),
    {
        let mut c = self.gpadc.gp_adc_ctrl_reg;
        c.gp_adc_en = false;
        self.gpadc.write_ctrl(c);
    }

    /// Reset the five control, trim and selector registers to their
    /// hardware power-on values, from any prior state.  The peripheral is
    /// left disabled and unconfigured; an in-flight conversion is discarded.
    pub fn reset(&mut self)
        ensures
            final(self).gpadc == reset_spec(old(self).gpadc),
            final(self).gpadc.gp_adc_ctrl_reg == ctrl_por(),
            final(self).gpadc.gp_adc_ctrl2_reg == ctrl2_por(),
            final(self).gpadc.gp_adc_ctrl3_reg == ctrl3_por(),
            final(self).gpadc.gp_adc_sel_reg == sel_por(),
            final(self).gpadc.gp_adc_trim_reg == trim_por(),
            final(self).gpadc.gp_adc_result_reg == old(self).gpadc.gp_adc_result_reg,
            final(self).gpadc.busy_wait_cycles == old(self).gpadc.busy_wait_cycles,
            old(self).wf() ==> final(self).wf(),
    {
        self.gpadc.reset_ctrl();
        self.gpadc.reset_ctrl2();
        self.gpadc.reset_ctrl3();
        self.gpadc.reset_sel();
        self.gpadc.reset_trim();
    }

    /// Set the start-conversion bit.  In continuous mode this begins
    /// free-running sampling; in single-shot mode it triggers one
    /// conversion.  The effect is asynchronous: the call does not wait.
    pub fn start_conversion(&mut self)
        ensures
            final(self).gpadc == start_spec(old(self).gpadc),
            final(self).gpadc.gp_adc_ctrl_reg == (GpAdcCtrl {
                gp_adc_start: true,
                ..old(self).gpadc.gp_adc_ctrl_reg
            }),
            final(self).gpadc.busy_wait_cycles == old(self).gpadc.busy_wait_cycles,
            final(self).gpadc.gp_adc_ctrl2_reg == old(self).gpadc.gp_adc_ctrl2_reg,
            final(self).gpadc.gp_adc_ctrl3_reg == old(self).gpadc.gp_adc_ctrl3_reg,
            final(self).gpadc.gp_adc_sel_reg == old(self).gpadc.gp_adc_sel_reg,
            final(self).gpadc.gp_adc_trim_reg == old(self).gpadc.gp_adc_trim_reg,
            final(self).gpadc.gp_adc_result_reg == old(self).gpadc.gp_adc_result_reg,
            old(self).wf() ==> final(self).wf(),
    {
        let mut c = self.gpadc.gp_adc_ctrl_reg;
        c.gp_adc_start = true;
        self.gpadc.write_ctrl(c);
    }

    /// Poll the start-conversion bit until the hardware clears it, then
    /// acknowledge the conversion-complete interrupt.  Meaningful in
    /// single-shot mode only: in continuous mode the bit never clears this
    /// way, so a started continuous conversion is excluded by precondition;
    /// likewise a start issued while the ADC is disabled, which would never
    /// complete.
    pub fn wait_for_conversion(&mut self)
        requires
            old(self).wf(),
            old(self).gpadc.gp_adc_ctrl_reg.gp_adc_start ==> (
                old(self).gpadc.gp_adc_ctrl_reg.gp_adc_en
                    && !old(self).gpadc.gp_adc_ctrl_reg.gp_adc_cont
            ),
        ensures
            final(self).gpadc == clear_int_written(conversion_finished(old(self).gpadc), 1),
            final(self).wf(),
            !final(self).gpadc.gp_adc_ctrl_reg.gp_adc_start,
            final(self).gpadc.gp_adc_clear_int_reg == 1,
            !final(self).gpadc.int_pending,
            old(self).gpadc.gp_adc_ctrl_reg.gp_adc_start
                ==> final(self).gpadc.gp_adc_result_reg.gp_adc_val == old(self).gpadc.next_sample,
            !old(self).gpadc.gp_adc_ctrl_reg.gp_adc_start
                ==> final(self).gpadc.gp_adc_result_reg == old(self).gpadc.gp_adc_result_reg,
            final(self).gpadc.busy_wait_cycles == old(self).gpadc.busy_wait_cycles,
    {
        let ghost p0 = self.gpadc;
        loop
            invariant
                self.wf(),
                p0.wf(),
                p0.gp_adc_ctrl_reg.gp_adc_start ==> (
                    p0.gp_adc_ctrl_reg.gp_adc_en && !p0.gp_adc_ctrl_reg.gp_adc_cont
                ),
                self.gpadc.gp_adc_ctrl_reg.gp_adc_start ==> self.gpadc == (GPADC {
                    conversion_polls_left: self.gpadc.conversion_polls_left,
                    ..p0
                }),
                !self.gpadc.gp_adc_ctrl_reg.gp_adc_start ==> self.gpadc == conversion_finished(p0),
            ensures
                self.gpadc == conversion_finished(p0),
                self.wf(),
            decreases self.gpadc.conversion_polls_left,
        {
            let c = self.gpadc.poll_ctrl();
            if !c.gp_adc_start {
                break;
            }
        }

        self.gpadc.write_clear_int(1);
    }

    /// Read the latest raw conversion result.  No side effects; whether the
    /// value is fresh is the caller's concern (a completed
    /// `wait_for_conversion`, or continuous-mode steady state).
    pub fn current_sample(&self) -> (sample: u16)
        ensures
            sample == self.gpadc.gp_adc_result_reg.gp_adc_val,
            self.wf() ==> sample <= GP_ADC_RESULT_MAX,
    {
        self.gpadc.gp_adc_result_reg.gp_adc_val
    }
}

/// Law: disabling and re-enabling the ADC preserves every configured field —
/// the mode, continuous, chopper and temperature bits, the channel
/// selectors, the front-end settings and the trim level.
pub proof fn lemma_disable_enable_preserves_config(p: GPADC)
    ensures
        config_state(enable_spec(disable_spec(p))) == config_state(p),
{
}

/// Law: running `init` twice with the same configuration leaves every
/// register exactly as a single `init` does; only the busy-wait accumulator
/// records the extra settling delays.
pub proof fn lemma_init_idempotent(p: GPADC, adc_config: AdcConfig)
    ensures
        reg_state(init_spec(init_spec(p, adc_config), adc_config))
            == reg_state(init_spec(p, adc_config)),
{
}

} // verus!
