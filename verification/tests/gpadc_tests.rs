use gpadc_hal::config::{AdcConfig, Attenuation, Averaging, Mode, SampleTime};
use gpadc_hal::gpadc::{GpAdc, GpAdcExt, GP_ADC_LDO_LEVEL_925MV, TEMP_SENSOR_SETTLE_CYCLES};
use gpadc_hal::regs::{
    GpAdcCtrl, GpAdcCtrl2, GpAdcCtrl3, GpAdcResult, GpAdcSel, GpAdcTrim, GPADC,
    GP_ADC_EN_DEL_POR, GP_ADC_RESULT_MAX,
};

fn sample_config() -> AdcConfig {
    AdcConfig {
        channel_sel_pos: 7,
        channel_sel_neg: 1,
        mode: Mode::SingleEnded,
        continuous: false,
        enable_die_temp: false,
        chopper: true,
        attenuation: Attenuation::X2,
        averaging: Averaging::X4,
        sample_time: SampleTime::S3,
    }
}

/// A peripheral whose registers hold arbitrary junk, standing for an
/// unknown prior state.
fn scrambled_peripheral() -> GPADC {
    GPADC {
        gp_adc_ctrl_reg: GpAdcCtrl {
            gp_adc_en: true,
            gp_adc_start: false,
            gp_adc_cont: true,
            gp_adc_se: true,
            gp_adc_chop: true,
            die_temp_en: true,
        },
        gp_adc_ctrl2_reg: GpAdcCtrl2 { gp_adc_attn: 3, gp_adc_conv_nrs: 5, gp_adc_smpl_time: 11 },
        gp_adc_ctrl3_reg: GpAdcCtrl3 { gp_adc_en_del: 0x17 },
        gp_adc_sel_reg: GpAdcSel { gp_adc_sel_p: 21, gp_adc_sel_n: 9 },
        gp_adc_trim_reg: GpAdcTrim { gp_adc_ldo_level: 6 },
        gp_adc_result_reg: GpAdcResult { gp_adc_val: 0x2aa },
        gp_adc_clear_int_reg: 0,
        int_pending: false,
        conversion_polls_left: 0,
        next_sample: 0x111,
        busy_wait_cycles: 0,
    }
}

#[test]
fn configure_round_trip() {
    let mut adc = GPADC::new().constrain();
    let cfg = AdcConfig {
        channel_sel_pos: 18,
        channel_sel_neg: 4,
        mode: Mode::Differential,
        continuous: true,
        enable_die_temp: false,
        chopper: true,
        attenuation: Attenuation::X4,
        averaging: Averaging::X128,
        sample_time: SampleTime::S16,
    };
    adc.configure(cfg);
    assert_eq!(adc.gpadc.gp_adc_sel_reg.gp_adc_sel_p, 18);
    assert_eq!(adc.gpadc.gp_adc_sel_reg.gp_adc_sel_n, 4);
    assert!(!adc.gpadc.gp_adc_ctrl_reg.gp_adc_se);
    assert!(adc.gpadc.gp_adc_ctrl_reg.gp_adc_cont);
    assert!(!adc.gpadc.gp_adc_ctrl_reg.die_temp_en);
    assert!(adc.gpadc.gp_adc_ctrl_reg.gp_adc_chop);
    assert_eq!(adc.gpadc.gp_adc_ctrl2_reg.gp_adc_attn, 3);
    assert_eq!(adc.gpadc.gp_adc_ctrl2_reg.gp_adc_conv_nrs, 7);
    assert_eq!(adc.gpadc.gp_adc_ctrl2_reg.gp_adc_smpl_time, 15);
}

#[test]
fn configure_round_trip_single_ended() {
    let mut adc = GPADC::new().constrain();
    let cfg = sample_config();
    adc.configure(cfg);
    assert!(adc.gpadc.gp_adc_ctrl_reg.gp_adc_se);
    assert!(!adc.gpadc.gp_adc_ctrl_reg.gp_adc_cont);
    assert_eq!(adc.gpadc.gp_adc_ctrl2_reg.gp_adc_attn, 1);
    assert_eq!(adc.gpadc.gp_adc_ctrl2_reg.gp_adc_conv_nrs, 2);
    assert_eq!(adc.gpadc.gp_adc_ctrl2_reg.gp_adc_smpl_time, 2);
}

#[test]
fn reset_restores_power_on_defaults() {
    let mut adc = scrambled_peripheral().constrain();
    adc.reset();
    let p = &adc.gpadc;
    assert!(!p.gp_adc_ctrl_reg.gp_adc_en);
    assert!(!p.gp_adc_ctrl_reg.gp_adc_start);
    assert!(!p.gp_adc_ctrl_reg.gp_adc_cont);
    assert!(!p.gp_adc_ctrl_reg.gp_adc_se);
    assert!(!p.gp_adc_ctrl_reg.gp_adc_chop);
    assert!(!p.gp_adc_ctrl_reg.die_temp_en);
    assert_eq!(p.gp_adc_ctrl2_reg, GpAdcCtrl2 { gp_adc_attn: 0, gp_adc_conv_nrs: 0, gp_adc_smpl_time: 0 });
    assert_eq!(p.gp_adc_ctrl3_reg, GpAdcCtrl3 { gp_adc_en_del: GP_ADC_EN_DEL_POR });
    assert_eq!(p.gp_adc_sel_reg, GpAdcSel { gp_adc_sel_p: 0, gp_adc_sel_n: 0 });
    assert_eq!(p.gp_adc_trim_reg, GpAdcTrim { gp_adc_ldo_level: 0 });
    // The result and interrupt registers are not among the five reset-affected ones.
    assert_eq!(p.gp_adc_result_reg.gp_adc_val, 0x2aa);
}

#[test]
fn enable_delays_four_cycles_per_unit() {
    let mut adc = GPADC::new().constrain();
    assert_eq!(adc.gpadc.busy_wait_cycles, 0);
    adc.enable();
    assert!(adc.gpadc.gp_adc_ctrl_reg.gp_adc_en);
    assert_eq!(adc.gpadc.busy_wait_cycles, 4 * u64::from(GP_ADC_EN_DEL_POR));
}

#[test]
fn enable_delay_degenerates_to_none_for_zero_register() {
    let mut p = scrambled_peripheral();
    p.gp_adc_ctrl3_reg = GpAdcCtrl3 { gp_adc_en_del: 0 };
    let mut adc = p.constrain();
    adc.enable();
    assert_eq!(adc.gpadc.busy_wait_cycles, 0);
}

#[test]
fn enable_delay_for_odd_register_value() {
    let mut p = GPADC::new();
    p.gp_adc_ctrl3_reg = GpAdcCtrl3 { gp_adc_en_del: 0x17 };
    let mut adc = p.constrain();
    adc.enable();
    assert_eq!(adc.gpadc.busy_wait_cycles, 4 * 0x17);
}

#[test]
fn temperature_sensor_settling_delay_inserted() {
    let mut adc = GPADC::new().constrain();
    let mut cfg = sample_config();
    cfg.enable_die_temp = true;
    adc.configure(cfg);
    assert_eq!(adc.gpadc.busy_wait_cycles, u64::from(TEMP_SENSOR_SETTLE_CYCLES));
    assert_eq!(adc.gpadc.busy_wait_cycles, 400);
}

#[test]
fn no_settling_delay_without_temperature_sensor() {
    let mut adc = GPADC::new().constrain();
    adc.configure(sample_config());
    assert_eq!(adc.gpadc.busy_wait_cycles, 0);
}

#[test]
fn single_shot_scenario() {
    let mut p = GPADC::new();
    p.set_next_sample(0x155);
    let mut adc = p.constrain();
    adc.init(sample_config());
    adc.start_conversion();
    adc.wait_for_conversion();
    let sample = adc.current_sample();
    assert_eq!(sample, 0x155);
    assert!(sample <= GP_ADC_RESULT_MAX);
    assert!(!adc.gpadc.gp_adc_ctrl_reg.gp_adc_start);
    assert!(!adc.gpadc.int_pending);
    assert_eq!(adc.gpadc.gp_adc_clear_int_reg, 1);
}

#[test]
fn single_shot_repeats() {
    let mut p = GPADC::new();
    p.set_next_sample(0x3ff);
    let mut adc = p.constrain();
    adc.init(sample_config());
    adc.start_conversion();
    adc.wait_for_conversion();
    assert_eq!(adc.current_sample(), 0x3ff);
    adc.start_conversion();
    adc.wait_for_conversion();
    assert_eq!(adc.current_sample(), 0x3ff);
    assert!(!adc.gpadc.gp_adc_ctrl_reg.gp_adc_start);
}

#[test]
fn disable_then_enable_preserves_configuration() {
    let mut adc = GPADC::new().constrain();
    adc.init(sample_config());
    let ctrl_before = adc.gpadc.gp_adc_ctrl_reg;
    let ctrl2_before = adc.gpadc.gp_adc_ctrl2_reg;
    let sel_before = adc.gpadc.gp_adc_sel_reg;
    let trim_before = adc.gpadc.gp_adc_trim_reg;
    adc.disable();
    assert!(!adc.gpadc.gp_adc_ctrl_reg.gp_adc_en);
    adc.enable();
    let ctrl_after = adc.gpadc.gp_adc_ctrl_reg;
    assert!(ctrl_after.gp_adc_en);
    assert_eq!(ctrl_after.gp_adc_se, ctrl_before.gp_adc_se);
    assert_eq!(ctrl_after.gp_adc_cont, ctrl_before.gp_adc_cont);
    assert_eq!(ctrl_after.gp_adc_chop, ctrl_before.gp_adc_chop);
    assert_eq!(ctrl_after.die_temp_en, ctrl_before.die_temp_en);
    assert_eq!(adc.gpadc.gp_adc_ctrl2_reg, ctrl2_before);
    assert_eq!(adc.gpadc.gp_adc_sel_reg, sel_before);
    assert_eq!(adc.gpadc.gp_adc_trim_reg, trim_before);
}

#[test]
fn init_twice_equals_init_once() {
    let cfg = sample_config();
    let mut once = GPADC::new().constrain();
    once.init(cfg);
    let mut twice = GPADC::new().constrain();
    twice.init(cfg);
    twice.init(cfg);
    assert_eq!(twice.gpadc.gp_adc_ctrl_reg, once.gpadc.gp_adc_ctrl_reg);
    assert_eq!(twice.gpadc.gp_adc_ctrl2_reg, once.gpadc.gp_adc_ctrl2_reg);
    assert_eq!(twice.gpadc.gp_adc_ctrl3_reg, once.gpadc.gp_adc_ctrl3_reg);
    assert_eq!(twice.gpadc.gp_adc_sel_reg, once.gpadc.gp_adc_sel_reg);
    assert_eq!(twice.gpadc.gp_adc_trim_reg, once.gpadc.gp_adc_trim_reg);
    assert_eq!(twice.gpadc.gp_adc_result_reg, once.gpadc.gp_adc_result_reg);
    assert_eq!(twice.gpadc.gp_adc_clear_int_reg, once.gpadc.gp_adc_clear_int_reg);
}

#[test]
fn init_sets_trim_and_enables() {
    let mut adc = scrambled_peripheral().constrain();
    adc.init(sample_config());
    assert_eq!(adc.gpadc.gp_adc_trim_reg.gp_adc_ldo_level, GP_ADC_LDO_LEVEL_925MV);
    assert_eq!(adc.gpadc.gp_adc_trim_reg.gp_adc_ldo_level, 0x4);
    assert!(adc.gpadc.gp_adc_ctrl_reg.gp_adc_en);
    assert!(!adc.gpadc.gp_adc_ctrl_reg.gp_adc_start);
    // Reset ran first, so the settling delay uses the default register value.
    assert_eq!(adc.gpadc.busy_wait_cycles, 4 * u64::from(GP_ADC_EN_DEL_POR));
}

#[test]
fn wait_without_started_conversion_returns_at_once() {
    let mut adc = GPADC::new().constrain();
    adc.init(sample_config());
    adc.wait_for_conversion();
    assert_eq!(adc.gpadc.gp_adc_clear_int_reg, 1);
    assert!(!adc.gpadc.gp_adc_ctrl_reg.gp_adc_start);
    assert_eq!(adc.current_sample(), 0);
}

#[test]
fn continuous_mode_start_keeps_running() {
    let mut adc = GPADC::new().constrain();
    let mut cfg = sample_config();
    cfg.continuous = true;
    adc.init(cfg);
    adc.start_conversion();
    assert!(adc.gpadc.gp_adc_ctrl_reg.gp_adc_start);
    assert!(adc.gpadc.gp_adc_ctrl_reg.gp_adc_cont);
}

#[test]
fn current_sample_has_no_side_effects() {
    let mut p = GPADC::new();
    p.set_next_sample(0x123);
    let mut adc = p.constrain();
    adc.init(sample_config());
    adc.start_conversion();
    adc.wait_for_conversion();
    let first = adc.current_sample();
    let second = adc.current_sample();
    assert_eq!(first, 0x123);
    assert_eq!(first, second);
    assert_eq!(adc.gpadc.gp_adc_clear_int_reg, 1);
}

#[test]
fn constrain_takes_the_peripheral_as_is() {
    let mut p = GPADC::new();
    p.set_next_sample(0x55);
    let adc: GpAdc = p.constrain();
    assert_eq!(adc.gpadc.next_sample, 0x55);
    assert_eq!(adc.gpadc.gp_adc_ctrl3_reg.gp_adc_en_del, GP_ADC_EN_DEL_POR);
    assert!(!adc.gpadc.gp_adc_ctrl_reg.gp_adc_en);
}

#[test]
fn attenuation_codes() {
    assert_eq!(Attenuation::X1.bits(), 0);
    assert_eq!(Attenuation::X2.bits(), 1);
    assert_eq!(Attenuation::X3.bits(), 2);
    assert_eq!(Attenuation::X4.bits(), 3);
}

#[test]
fn averaging_codes() {
    assert_eq!(Averaging::X1.bits(), 0);
    assert_eq!(Averaging::X8.bits(), 3);
    assert_eq!(Averaging::X128.bits(), 7);
}

#[test]
fn sample_time_codes() {
    assert_eq!(SampleTime::S1.bits(), 0);
    assert_eq!(SampleTime::S9.bits(), 8);
    assert_eq!(SampleTime::S16.bits(), 15);
}

#[test]
fn mode_bits() {
    assert!(Mode::SingleEnded.to_se_bit());
    assert!(!Mode::Differential.to_se_bit());
}
