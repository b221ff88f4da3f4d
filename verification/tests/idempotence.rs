//! Applying a configuration operation twice with identical parameters
//! produces the same final register state as applying it once.

use wm8978::DataFormat;
use wm8978::I2SWordLength;
use wm8978::SampleRate;
use wm8978::Wm8978Driver;

/// A driver whose shadow was scrambled away from the reset image, so that
/// read-modify-write operations meet non-trivial words.
fn scrambled() -> Wm8978Driver<()> {
    let mut d: Wm8978Driver<()> = Wm8978Driver::new(());
    for i in 0..58 {
        d.write_reg(i, 0x01A5 ^ (i as u16) << 3).unwrap();
    }
    d
}

fn registers(d: &Wm8978Driver<()>) -> Vec<u16> {
    let mut words: Vec<u16> = Vec::new();
    for i in 0..58 {
        words.push(d.read_reg(i).unwrap());
    }
    words
}

#[test]
fn init_twice_equals_once() {
    let mut once = scrambled();
    once.init().unwrap();
    let mut twice = scrambled();
    twice.init().unwrap();
    twice.init().unwrap();
    assert_eq!(registers(&once), registers(&twice));
}

#[test]
fn adc_dac_twice_equals_once() {
    for (dac, adc) in [(true, true), (true, false), (false, true), (false, false)] {
        let mut once = scrambled();
        once.set_adc_dac(dac, adc).unwrap();
        let mut twice = scrambled();
        twice.set_adc_dac(dac, adc).unwrap();
        twice.set_adc_dac(dac, adc).unwrap();
        assert_eq!(registers(&once), registers(&twice));
    }
}

#[test]
fn mic_gain_twice_equals_once() {
    let mut once = scrambled();
    once.set_mic_gain(37).unwrap();
    let mut twice = scrambled();
    twice.set_mic_gain(37).unwrap();
    twice.set_mic_gain(37).unwrap();
    assert_eq!(registers(&once), registers(&twice));
}

#[test]
fn linein_gain_twice_equals_once() {
    let mut once = scrambled();
    once.set_linein_gain(3).unwrap();
    let mut twice = scrambled();
    twice.set_linein_gain(3).unwrap();
    twice.set_linein_gain(3).unwrap();
    assert_eq!(registers(&once), registers(&twice));
}

#[test]
fn aux_gain_twice_equals_once() {
    let mut once = scrambled();
    once.set_aux_gain(6).unwrap();
    let mut twice = scrambled();
    twice.set_aux_gain(6).unwrap();
    twice.set_aux_gain(6).unwrap();
    assert_eq!(registers(&once), registers(&twice));
}

#[test]
fn inputs_twice_equals_once() {
    for (mic, linein, aux) in [
        (true, true, false),
        (false, false, true),
        (true, true, true),
        (false, false, false),
    ] {
        let mut once = scrambled();
        once.set_inputs(mic, linein, aux).unwrap();
        let mut twice = scrambled();
        twice.set_inputs(mic, linein, aux).unwrap();
        twice.set_inputs(mic, linein, aux).unwrap();
        assert_eq!(registers(&once), registers(&twice));
    }
}

#[test]
fn eq_twice_equals_once() {
    let mut once = scrambled();
    once.set_eq(wm8978::encoding::Eq::Three, 2, 10).unwrap();
    let mut twice = scrambled();
    twice.set_eq(wm8978::encoding::Eq::Three, 2, 10).unwrap();
    twice.set_eq(wm8978::encoding::Eq::Three, 2, 10).unwrap();
    assert_eq!(registers(&once), registers(&twice));
}

#[test]
fn eq_band_one_twice_equals_once() {
    let mut once = scrambled();
    once.set_eq(wm8978::encoding::Eq::One, 2, 10).unwrap();
    let mut twice = scrambled();
    twice.set_eq(wm8978::encoding::Eq::One, 2, 10).unwrap();
    twice.set_eq(wm8978::encoding::Eq::One, 2, 10).unwrap();
    assert_eq!(registers(&once), registers(&twice));
}

#[test]
fn outputs_twice_equals_once() {
    let mut once = scrambled();
    once.set_outputs(true, true).unwrap();
    let mut twice = scrambled();
    twice.set_outputs(true, true).unwrap();
    twice.set_outputs(true, true).unwrap();
    assert_eq!(registers(&once), registers(&twice));
}

#[test]
fn headphone_volume_twice_equals_once() {
    let mut once = scrambled();
    once.set_volume_headphone(12, 0).unwrap();
    let mut twice = scrambled();
    twice.set_volume_headphone(12, 0).unwrap();
    twice.set_volume_headphone(12, 0).unwrap();
    assert_eq!(registers(&once), registers(&twice));
}

#[test]
fn speaker_volume_twice_equals_once() {
    let mut once = scrambled();
    once.set_volume_speaker(0).unwrap();
    let mut twice = scrambled();
    twice.set_volume_speaker(0).unwrap();
    twice.set_volume_speaker(0).unwrap();
    assert_eq!(registers(&once), registers(&twice));
}

#[test]
fn sample_rate_twice_equals_once() {
    let mut once = scrambled();
    once.set_sample_rate(SampleRate::EightkHz).unwrap();
    let mut twice = scrambled();
    twice.set_sample_rate(SampleRate::EightkHz).unwrap();
    twice.set_sample_rate(SampleRate::EightkHz).unwrap();
    assert_eq!(registers(&once), registers(&twice));
}

#[test]
fn i2s_configuration_twice_equals_once() {
    let mut once = scrambled();
    once.set_i2s_configuration(DataFormat::I2S, I2SWordLength::SixteenBits).unwrap();
    let mut twice = scrambled();
    twice.set_i2s_configuration(DataFormat::I2S, I2SWordLength::SixteenBits).unwrap();
    twice.set_i2s_configuration(DataFormat::I2S, I2SWordLength::SixteenBits).unwrap();
    assert_eq!(registers(&once), registers(&twice));
}
