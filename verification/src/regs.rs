//! Model of the GPADC register block.
//!
//! The real peripheral is a block of memory-mapped registers plus the analog
//! converter behind them.  This module models both as plain data: a struct
//! per register, holding its named bit-fields as values, and a few extra
//! fields standing for the hardware's hidden state (the in-flight conversion,
//! the sample the analog front-end will produce, the cycles the CPU has spent
//! busy-waiting).  Every access the driver makes goes through a method here
//! whose contract states the complete effect on the model.

use vstd::prelude::*;

verus! {

/// Largest raw sample the converter can produce (10-bit resolution).
pub const GP_ADC_RESULT_MAX: u16 = 0x3ff;

/// Power-on default of the `GP_ADC_EN_DEL` field of `GP_ADC_CTRL3_REG`.
pub const GP_ADC_EN_DEL_POR: u8 = 0x40;

/// Number of `GP_ADC_CTRL_REG` reads after which the model hardware
/// completes an in-flight single-shot conversion.
pub const CONVERSION_POLL_STEPS: u8 = 3;

/// Named bit-fields of `GP_ADC_CTRL_REG`: enable, start-conversion,
/// continuous mode, single-ended mode, chopper mode, die-temperature sensor.
#[derive(Clone, Copy, PartialEq, Eq, Structural, Debug)]
pub struct GpAdcCtrl {
    pub gp_adc_en: bool,
    pub gp_adc_start: bool,
    pub gp_adc_cont: bool,
    pub gp_adc_se: bool,
    pub gp_adc_chop: bool,
    pub die_temp_en: bool,
}

/// Named bit-fields of `GP_ADC_CTRL2_REG`: attenuation (2 bits),
/// number of conversions to average (3 bits), sample time (4 bits).
#[derive(Clone, Copy, PartialEq, Eq, Structural, Debug)]
pub struct GpAdcCtrl2 {
    pub gp_adc_attn: u8,
    pub gp_adc_conv_nrs: u8,
    pub gp_adc_smpl_time: u8,
}

/// Named bit-fields of `GP_ADC_CTRL3_REG`: the enable-settling delay,
/// reported by hardware in units of four core clock cycles.
#[derive(Clone, Copy, PartialEq, Eq, Structural, Debug)]
pub struct GpAdcCtrl3 {
    pub gp_adc_en_del: u8,
}

/// Named bit-fields of `GP_ADC_SEL_REG`: the positive and negative
/// input-channel selectors.
#[derive(Clone, Copy, PartialEq, Eq, Structural, Debug)]
pub struct GpAdcSel {
    pub gp_adc_sel_p: u8,
    pub gp_adc_sel_n: u8,
}

/// Named bit-fields of `GP_ADC_TRIM_REG`: the LDO reference level (3 bits).
#[derive(Clone, Copy, PartialEq, Eq, Structural, Debug)]
pub struct GpAdcTrim {
    pub gp_adc_ldo_level: u8,
}

/// Named bit-fields of `GP_ADC_RESULT_REG`: the latched raw sample.
#[derive(Clone, Copy, PartialEq, Eq, Structural, Debug)]
pub struct GpAdcResult {
    pub gp_adc_val: u16,
}

/// Power-on value of `GP_ADC_CTRL_REG`: everything cleared.
pub open spec fn ctrl_por() -> GpAdcCtrl {
    GpAdcCtrl {
        gp_adc_en: false,
        gp_adc_start: false,
        gp_adc_cont: false,
        gp_adc_se: false,
        gp_adc_chop: false,
        die_temp_en: false,
    }
}

/// Power-on value of `GP_ADC_CTRL2_REG`: everything cleared.
pub open spec fn ctrl2_por() -> GpAdcCtrl2 {
    GpAdcCtrl2 { gp_adc_attn: 0, gp_adc_conv_nrs: 0, gp_adc_smpl_time: 0 }
}

/// Power-on value of `GP_ADC_CTRL3_REG`: the hardware's default
/// enable-settling delay.
pub open spec fn ctrl3_por() -> GpAdcCtrl3 {
    GpAdcCtrl3 { gp_adc_en_del: GP_ADC_EN_DEL_POR }
}

/// Power-on value of `GP_ADC_SEL_REG`: both selectors cleared.
pub open spec fn sel_por() -> GpAdcSel {
    GpAdcSel { gp_adc_sel_p: 0, gp_adc_sel_n: 0 }
}

/// Power-on value of `GP_ADC_TRIM_REG`: trim cleared.
pub open spec fn trim_por() -> GpAdcTrim {
    GpAdcTrim { gp_adc_ldo_level: 0 }
}

/// The GPADC peripheral: its registers, and the model state that stands for
/// the hardware hidden behind them.  A value of this type is a handle to the
/// one peripheral instance; it is deliberately not `Clone`, so ownership can
/// only move, and exactly one driver can be built over it.
#[derive(PartialEq, Eq, Structural, Debug)]
pub struct GPADC {
    pub gp_adc_ctrl_reg: GpAdcCtrl,
    pub gp_adc_ctrl2_reg: GpAdcCtrl2,
    pub gp_adc_ctrl3_reg: GpAdcCtrl3,
    pub gp_adc_sel_reg: GpAdcSel,
    pub gp_adc_trim_reg: GpAdcTrim,
    pub gp_adc_result_reg: GpAdcResult,
    pub gp_adc_clear_int_reg: u16,
    /// Model state: the conversion-complete interrupt is pending.
    pub int_pending: bool,
    /// Model state: control-register reads left before an in-flight
    /// single-shot conversion completes; zero when none is in flight.
    pub conversion_polls_left: u8,
    /// Model state: the raw code the analog front-end produces for the
    /// next completed conversion.
    pub next_sample: u16,
    /// Model state: total core-clock cycles the driver has busy-waited,
    /// wrapping at the width of the counter.
    pub busy_wait_cycles: u64,
}

/// `a + b` reduced into a `u64`, as an accumulator of that width wraps.
pub open spec fn wrap_add_u64(a: u64, b: int) -> u64 {
    if a + b > u64::MAX {
        (a + b - 0x1_0000_0000_0000_0000) as u64
    } else {
        (a + b) as u64
    }
}

/// Effect of writing `c` into `GP_ADC_CTRL_REG`.  When the written value
/// asks for a single-shot conversion (enabled, started, not continuous),
/// the hardware keeps an already-running countdown or arms a fresh one;
/// otherwise any countdown is abandoned.
pub open spec fn ctrl_written(p: GPADC, c: GpAdcCtrl) -> GPADC {
    let polls = if c.gp_adc_en && c.gp_adc_start && !c.gp_adc_cont {
        if p.gp_adc_ctrl_reg.gp_adc_start && p.conversion_polls_left >= 1 {
            p.conversion_polls_left
        } else {
            CONVERSION_POLL_STEPS
        }
    } else {
        0
    };
    GPADC { gp_adc_ctrl_reg: c, conversion_polls_left: polls, ..p }
}

/// Effect of one control-register read on the model hardware: an enabled,
/// started converter makes progress.  In continuous mode it latches a fresh
/// sample and keeps running; in single-shot mode it counts the poll down and,
/// on the last one, latches the sample, clears the start bit and raises the
/// interrupt-pending flag.
pub open spec fn step(p: GPADC) -> GPADC {
    if p.gp_adc_ctrl_reg.gp_adc_en && p.gp_adc_ctrl_reg.gp_adc_start {
        if p.gp_adc_ctrl_reg.gp_adc_cont {
            GPADC {
                gp_adc_result_reg: (GpAdcResult { gp_adc_val: p.next_sample }),
                int_pending: true,
                ..p
            }
        } else if p.conversion_polls_left <= 1 {
            GPADC {
                gp_adc_ctrl_reg: (GpAdcCtrl { gp_adc_start: false, ..p.gp_adc_ctrl_reg }),
                gp_adc_result_reg: (GpAdcResult { gp_adc_val: p.next_sample }),
                conversion_polls_left: 0,
                int_pending: true,
                ..p
            }
        } else {
            GPADC { conversion_polls_left: (p.conversion_polls_left - 1) as u8, ..p }
        }
    } else {
        p
    }
}

/// Effect of writing both selector fields of `GP_ADC_SEL_REG`.
pub open spec fn sel_written(p: GPADC, sel_p: u8, sel_n: u8) -> GPADC {
    GPADC { gp_adc_sel_reg: (GpAdcSel { gp_adc_sel_p: sel_p, gp_adc_sel_n: sel_n }), ..p }
}

/// Effect of writing the three fields of `GP_ADC_CTRL2_REG`.
pub open spec fn ctrl2_written(p: GPADC, attn: u8, conv_nrs: u8, smpl_time: u8) -> GPADC {
    GPADC {
        gp_adc_ctrl2_reg: (GpAdcCtrl2 {
            gp_adc_attn: attn,
            gp_adc_conv_nrs: conv_nrs,
            gp_adc_smpl_time: smpl_time,
        }),
        ..p
    }
}

/// Effect of writing the LDO level field of `GP_ADC_TRIM_REG`.
pub open spec fn trim_written(p: GPADC, ldo_level: u8) -> GPADC {
    GPADC { gp_adc_trim_reg: (GpAdcTrim { gp_adc_ldo_level: ldo_level }), ..p }
}

/// Effect of writing `GP_ADC_CLEAR_INT_REG`: a write with the low bit set
/// acknowledges (clears) the pending conversion-complete interrupt.
pub open spec fn clear_int_written(p: GPADC, v: u16) -> GPADC {
    GPADC {
        gp_adc_clear_int_reg: v,
        int_pending: p.int_pending && v % 2 == 0,
        ..p
    }
}

/// Effect of a busy-wait of `cycles` core-clock cycles: only the model's
/// cycle accumulator moves.
pub open spec fn delayed(p: GPADC, cycles: int) -> GPADC {
    GPADC { busy_wait_cycles: wrap_add_u64(p.busy_wait_cycles, cycles), ..p }
}

impl GPADC {
    /// The peripheral exactly as it comes out of power-on reset.
    pub open spec fn power_on() -> GPADC {
        GPADC {
            gp_adc_ctrl_reg: ctrl_por(),
            gp_adc_ctrl2_reg: ctrl2_por(),
            gp_adc_ctrl3_reg: ctrl3_por(),
            gp_adc_sel_reg: sel_por(),
            gp_adc_trim_reg: trim_por(),
            gp_adc_result_reg: GpAdcResult { gp_adc_val: 0 },
            gp_adc_clear_int_reg: 0,
            int_pending: false,
            conversion_polls_left: 0,
            next_sample: 0,
            busy_wait_cycles: 0,
        }
    }

    /// Well-formedness of the model: every field value fits its hardware
    /// width, and an enabled single-shot conversion in flight always has a
    /// countdown left, so polling it terminates.
    pub open spec fn wf(self) -> bool {
        &&& self.gp_adc_ctrl2_reg.gp_adc_attn <= 3
        &&& self.gp_adc_ctrl2_reg.gp_adc_conv_nrs <= 7
        &&& self.gp_adc_ctrl2_reg.gp_adc_smpl_time <= 15
        &&& self.gp_adc_trim_reg.gp_adc_ldo_level <= 7
        &&& self.gp_adc_result_reg.gp_adc_val <= GP_ADC_RESULT_MAX
        &&& self.next_sample <= GP_ADC_RESULT_MAX
        &&& self.conversion_polls_left <= CONVERSION_POLL_STEPS
        &&& ((self.gp_adc_ctrl_reg.gp_adc_en && self.gp_adc_ctrl_reg.gp_adc_start
            && !self.gp_adc_ctrl_reg.gp_adc_cont) ==> self.conversion_polls_left >= 1)
    }

    /// A fresh peripheral handle in its power-on state.
    pub fn new() -> (p: GPADC)
        ensures
            p == GPADC::power_on(),
            p.wf(),
    {
        GPADC {
            gp_adc_ctrl_reg: GpAdcCtrl {
                gp_adc_en: false,
                gp_adc_start: false,
                gp_adc_cont: false,
                gp_adc_se: false,
                gp_adc_chop: false,
                die_temp_en: false,
            },
            gp_adc_ctrl2_reg: GpAdcCtrl2 { gp_adc_attn: 0, gp_adc_conv_nrs: 0, gp_adc_smpl_time: 0 },
            gp_adc_ctrl3_reg: GpAdcCtrl3 { gp_adc_en_del: GP_ADC_EN_DEL_POR },
            gp_adc_sel_reg: GpAdcSel { gp_adc_sel_p: 0, gp_adc_sel_n: 0 },
            gp_adc_trim_reg: GpAdcTrim { gp_adc_ldo_level: 0 },
            gp_adc_result_reg: GpAdcResult { gp_adc_val: 0 },
            gp_adc_clear_int_reg: 0,
            int_pending: false,
            conversion_polls_left: 0,
            next_sample: 0,
            busy_wait_cycles: 0,
        }
    }

    /// Model input: set the raw code the analog front-end will produce for
    /// the next completed conversion.
    pub fn set_next_sample(&mut self, sample: u16)
        requires
            sample <= GP_ADC_RESULT_MAX,
        ensures
            *final(self) == (GPADC { next_sample: sample, ..*old(self) }),
    {
        self.next_sample = sample;
    }

    /// Busy-wait for `cycles` core-clock cycles.  The model records the
    /// cycles in its accumulator instead of spinning.
    pub fn delay(&mut self, cycles: u32)
        ensures
            *final(self) == delayed(*old(self), cycles as int),
    {
        self.busy_wait_cycles = wrap_add(self.busy_wait_cycles, cycles as u64);
    }

    /// Write both selector fields of `GP_ADC_SEL_REG`.
    pub fn write_sel(&mut self, sel_p: u8, sel_n: u8)
        ensures
            *final(self) == sel_written(*old(self), sel_p, sel_n),
    {
        self.gp_adc_sel_reg = GpAdcSel { gp_adc_sel_p: sel_p, gp_adc_sel_n: sel_n };
    }

    /// Write `GP_ADC_CTRL_REG`; the model arms or abandons the single-shot
    /// countdown as `ctrl_written` states.
    pub fn write_ctrl(&mut self, c: GpAdcCtrl)
        ensures
            *final(self) == ctrl_written(*old(self), c),
    {
        let polls: u8 = if c.gp_adc_en && c.gp_adc_start && !c.gp_adc_cont {
            if self.gp_adc_ctrl_reg.gp_adc_start && self.conversion_polls_left >= 1 {
                self.conversion_polls_left
            } else {
                CONVERSION_POLL_STEPS
            }
        } else {
            0
        };
        self.gp_adc_ctrl_reg = c;
        self.conversion_polls_left = polls;
    }

    /// Write the three fields of `GP_ADC_CTRL2_REG`.  Each value must fit
    /// its hardware field width.
    pub fn write_ctrl2(&mut self, attn: u8, conv_nrs: u8, smpl_time: u8)
        requires
            attn <= 3,
            conv_nrs <= 7,
            smpl_time <= 15,
        ensures
            *final(self) == ctrl2_written(*old(self), attn, conv_nrs, smpl_time),
    {
        self.gp_adc_ctrl2_reg = GpAdcCtrl2 {
            gp_adc_attn: attn,
            gp_adc_conv_nrs: conv_nrs,
            gp_adc_smpl_time: smpl_time,
        };
    }

    /// Write the LDO level field of `GP_ADC_TRIM_REG`.  The value must fit
    /// the 3-bit field.
    pub fn write_trim_ldo(&mut self, ldo_level: u8)
        requires
            ldo_level <= 7,
        ensures
            *final(self) == trim_written(*old(self), ldo_level),
    {
        self.gp_adc_trim_reg = GpAdcTrim { gp_adc_ldo_level: ldo_level };
    }

    /// Write `GP_ADC_CLEAR_INT_REG`, acknowledging the pending interrupt
    /// when the low bit is set.
    pub fn write_clear_int(&mut self, v: u16)
        ensures
            *final(self) == clear_int_written(*old(self), v),
    {
        self.gp_adc_clear_int_reg = v;
        if v % 2 != 0 {
            self.int_pending = false;
        }
    }

    /// One read of `GP_ADC_CTRL_REG` over the bus.  The model hardware
    /// advances one step, then the register value is returned.
    pub fn poll_ctrl(&mut self) -> (c: GpAdcCtrl)
        ensures
            *final(self) == step(*old(self)),
            c == step(*old(self)).gp_adc_ctrl_reg,
    {
        if self.gp_adc_ctrl_reg.gp_adc_en && self.gp_adc_ctrl_reg.gp_adc_start {
            if self.gp_adc_ctrl_reg.gp_adc_cont {
                self.gp_adc_result_reg = GpAdcResult { gp_adc_val: self.next_sample };
                self.int_pending = true;
            } else if self.conversion_polls_left <= 1 {
                self.gp_adc_ctrl_reg.gp_adc_start = false;
                self.gp_adc_result_reg = GpAdcResult { gp_adc_val: self.next_sample };
                self.conversion_polls_left = 0;
                self.int_pending = true;
            } else {
                self.conversion_polls_left = self.conversion_polls_left - 1;
            }
        }
        self.gp_adc_ctrl_reg
    }

    /// Reset `GP_ADC_CTRL_REG` to its power-on value, abandoning any
    /// in-flight conversion.
    pub fn reset_ctrl(&mut self)
        ensures
            *final(self) == (GPADC { gp_adc_ctrl_reg: ctrl_por(), conversion_polls_left: 0, ..*old(self) }),
    {
        self.gp_adc_ctrl_reg = GpAdcCtrl {
            gp_adc_en: false,
            gp_adc_start: false,
            gp_adc_cont: false,
            gp_adc_se: false,
            gp_adc_chop: false,
            die_temp_en: false,
        };
        self.conversion_polls_left = 0;
    }

    /// Reset `GP_ADC_CTRL2_REG` to its power-on value.
    pub fn reset_ctrl2(&mut self)
        ensures
            *final(self) == (GPADC { gp_adc_ctrl2_reg: ctrl2_por(), ..*old(self) }),
    {
        self.gp_adc_ctrl2_reg = GpAdcCtrl2 { gp_adc_attn: 0, gp_adc_conv_nrs: 0, gp_adc_smpl_time: 0 };
    }

    /// Reset `GP_ADC_CTRL3_REG` to its power-on value.
    pub fn reset_ctrl3(&mut self)
        ensures
            *final(self) == (GPADC { gp_adc_ctrl3_reg: ctrl3_por(), ..*old(self) }),
    {
        self.gp_adc_ctrl3_reg = GpAdcCtrl3 { gp_adc_en_del: GP_ADC_EN_DEL_POR };
    }

    /// Reset `GP_ADC_SEL_REG` to its power-on value.
    pub fn reset_sel(&mut self)
        ensures
            *final(self) == (GPADC { gp_adc_sel_reg: sel_por(), ..*old(self) }),
    {
        self.gp_adc_sel_reg = GpAdcSel { gp_adc_sel_p: 0, gp_adc_sel_n: 0 };
    }

    /// Reset `GP_ADC_TRIM_REG` to its power-on value.
    pub fn reset_trim(&mut self)
        ensures
            *final(self) == (GPADC { gp_adc_trim_reg: trim_por(), ..*old(self) }),
    {
        self.gp_adc_trim_reg = GpAdcTrim { gp_adc_ldo_level: 0 };
    }
}

/// `a + b` on `u64`, wrapping at the counter width.
fn wrap_add(a: u64, b: u64) -> (r: u64)
    ensures
        r == wrap_add_u64(a, b as int),
{
    if b <= u64::MAX - a {
        a + b
    } else {
        b - (u64::MAX - a) - 1
    }
}

} // verus!
