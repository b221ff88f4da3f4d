//! Bitfield encodings: how each semantic configuration operation maps onto
//! packed 16-bit register words, and the register-file transform each
//! operation performs.

use vstd::prelude::*;

verus! {

/// Equalizer band selector.
pub enum Eq {
    One,
    Two,
    Three,
    Four,
    Five,
}

/// Discrete audio sample rates the chip supports.
pub enum SampleRate {
    FortyEightkHz,
    ThirtyTwokHz,
    TwentyFourkHz,
    SixteenkHz,
    TwelvekHz,
    EightkHz,
}

/// Sample word lengths of the digital audio interface.
pub enum I2SWordLength {
    SixteenBits,
    TwentyBits,
    TwentyFourBits,
    ThirtyTwoBits,
}

/// Frame formats of the digital audio interface.
pub enum DataFormat {
    RightJustified,
    LeftJustified,
    I2S,
    DspPCM,
}

/// ADC/DAC path enable: bits 0-1 set or cleared, other bits preserved.
pub open spec fn path_enable_word(w: u16, on: bool) -> u16 {
    if on {
        w | 3
    } else {
        w & !3
    }
}

/// Microphone PGA enable in register 2: bits 2-3 set or cleared.
pub open spec fn mic_enable_word(w: u16, on: bool) -> u16 {
    if on {
        w | (3u16 << 2)
    } else {
        w & !(3u16 << 2)
    }
}

/// Microphone input-path routing in register 44: bits 0-1 and 4-5 set or
/// cleared together.
pub open spec fn mic_input_word(w: u16, on: bool) -> u16 {
    if on {
        w | (3u16 << 4) | (3u16 << 0)
    } else {
        w & !((3u16 << 4) | (3u16 << 0))
    }
}

/// Microphone gain word: the gain masked to its 6-bit field.
pub open spec fn mic_gain_word(gain: u8) -> u16 {
    (gain & 0x3F) as u16
}

/// Line-in gain: the 3-bit field at bit offset 4 replaced, other bits
/// preserved.
pub open spec fn linein_gain_word(w: u16, gain: u8) -> u16 {
    (w & !(7u16 << 4)) | (((gain & 7) << 4) as u16)
}

/// Auxiliary-input gain: the 3-bit field at bit offset 0 replaced, other bits
/// preserved.
pub open spec fn aux_gain_word(w: u16, gain: u8) -> u16 {
    (w & !7) | ((gain & 7) as u16)
}

/// Equalizer band word: attenuation-coded gain term (`24 - gain` when
/// `gain < 24`, else 0) combined with the 2-bit cutoff-frequency field at bit
/// offset 5.
pub open spec fn eq_word(cfreq: u8, gain: u8) -> u16 {
    (if gain < 24 {
        (24 - gain) as u16
    } else {
        0u16
    }) | (((cfreq as u16) & 3) << 5)
}

/// Output routing word: bit 0 enables the DAC; bypass additionally sets the
/// bypass bit 1 and a fixed gain-of-5 field at bit offset 2.
pub open spec fn output_word(dac: bool, bypass: bool) -> u16 {
    let base: u16 = if dac {
        1u16
    } else {
        0u16
    };
    if bypass {
        base | (1u16 << 1) | (5u16 << 2)
    } else {
        base
    }
}

/// Volume word: a zero volume maps to the mute flag (bit 6); any other volume
/// is masked to its 6-bit field.
pub open spec fn volume_word(vol: u8) -> u16 {
    if vol == 0 {
        (1u8 << 6) as u16
    } else {
        (vol & 0x3F) as u16
    }
}

/// The fixed register code of each sample rate.
pub open spec fn sample_rate_code(rate: SampleRate) -> u16 {
    match rate {
        SampleRate::FortyEightkHz => 0x0,
        SampleRate::ThirtyTwokHz => 0x2,
        SampleRate::TwentyFourkHz => 0x4,
        SampleRate::SixteenkHz => 0x6,
        SampleRate::TwelvekHz => 0x8,
        SampleRate::EightkHz => 0xA,
    }
}

/// The register code of each sample word length.
pub open spec fn word_length_code(len: I2SWordLength) -> u16 {
    match len {
        I2SWordLength::SixteenBits => 0x0,
        I2SWordLength::TwentyBits => 0x1,
        I2SWordLength::TwentyFourBits => 0x10,
        I2SWordLength::ThirtyTwoBits => 0x11,
    }
}

/// The register code of each frame format.
pub open spec fn data_format_code(format: DataFormat) -> u16 {
    match format {
        DataFormat::RightJustified => 0x0,
        DataFormat::LeftJustified => 0x1,
        DataFormat::I2S => 0x10,
        DataFormat::DspPCM => 0x11,
    }
}

/// Audio-interface word: the format code at bit offset 3 combined with the
/// word-length code at bit offset 5.
pub open spec fn i2s_word(format: DataFormat, len: I2SWordLength) -> u16 {
    (data_format_code(format) << 3) | (word_length_code(len) << 5)
}

/// Register file after the power-on initialization sequence: the fixed
/// known-good power-up values overwrite their registers, all others keep
/// their previous words.
pub open spec fn apply_init(regs: Seq<u16>) -> Seq<u16> {
    regs.update(0, 0u16)
        .update(1, 0x9Bu16)
        .update(2, 0x1B0u16)
        .update(3, 0x16Cu16)
        .update(6, 0u16)
        .update(43, 1u16 << 4)
        .update(47, 1u16 << 8)
        .update(48, 1u16 << 8)
        .update(49, 1u16 << 1)
        .update(10, 1u16 << 3)
        .update(14, 1u16 << 3)
}

/// Register file after enabling or disabling the DAC (register 3) and ADC
/// (register 2) paths.
pub open spec fn apply_set_adc_dac(regs: Seq<u16>, dac: bool, adc: bool) -> Seq<u16> {
    regs.update(3, path_enable_word(regs[3], dac)).update(2, path_enable_word(regs[2], adc))
}

/// Register file after setting the microphone gain: the masked gain written
/// to both channel registers, with the volume-update strobe (bit 8) in
/// register 46.
pub open spec fn apply_set_mic_gain(regs: Seq<u16>, gain: u8) -> Seq<u16> {
    regs.update(45, mic_gain_word(gain)).update(46, mic_gain_word(gain) | (1u16 << 8))
}

/// Register file after setting the line-in gain in registers 47 and 48.
pub open spec fn apply_set_linein_gain(regs: Seq<u16>, gain: u8) -> Seq<u16> {
    regs.update(47, linein_gain_word(regs[47], gain)).update(
        48,
        linein_gain_word(regs[48], gain),
    )
}

/// Register file after setting the auxiliary-input gain in registers 47 and
/// 48.
pub open spec fn apply_set_aux_gain(regs: Seq<u16>, gain: u8) -> Seq<u16> {
    regs.update(47, aux_gain_word(regs[47], gain)).update(48, aux_gain_word(regs[48], gain))
}

/// Register file after selecting the active inputs: microphone enables in
/// registers 2 and 44, then the fixed line-in gain (5 when enabled, 0 when
/// not) and auxiliary gain (7 when enabled, 0 when not).
pub open spec fn apply_set_inputs(regs: Seq<u16>, mic: bool, linein: bool, aux: bool) -> Seq<
    u16,
> {
    let r1 = regs.update(2, mic_enable_word(regs[2], mic));
    let r2 = r1.update(44, mic_input_word(r1[44], mic));
    let r3 = apply_set_linein_gain(
        r2,
        if linein {
            5u8
        } else {
            0u8
        },
    );
    apply_set_aux_gain(
        r3,
        if aux {
            7u8
        } else {
            0u8
        },
    )
}

/// Register file after setting one equalizer band. Band One masks the
/// computed word against 0x100, keeping only bit 8: a documented quirk of
/// this encoder, preserved as-is.
pub open spec fn apply_set_eq(regs: Seq<u16>, band: Eq, cfreq: u8, gain: u8) -> Seq<u16> {
    match band {
        Eq::One => regs.update(18, eq_word(cfreq, gain) & 0x100),
        Eq::Two => regs.update(19, eq_word(cfreq, gain)),
        Eq::Three => regs.update(20, eq_word(cfreq, gain)),
        Eq::Four => regs.update(21, eq_word(cfreq, gain)),
        Eq::Five => regs.update(22, eq_word(cfreq, gain)),
    }
}

/// Register file after setting the output routing: the identical computed
/// word written to registers 50 and 51.
pub open spec fn apply_set_outputs(regs: Seq<u16>, dac: bool, bypass: bool) -> Seq<u16> {
    regs.update(50, output_word(dac, bypass)).update(51, output_word(dac, bypass))
}

/// Register file after setting the headphone volumes: left channel in
/// register 52, right channel with the volume-update strobe (bit 8) in
/// register 53.
pub open spec fn apply_set_volume_headphone(regs: Seq<u16>, vol_l: u8, vol_r: u8) -> Seq<u16> {
    regs.update(52, volume_word(vol_l)).update(53, volume_word(vol_r) | (1u16 << 8))
}

/// Register file after setting the speaker volume in registers 54 and 55,
/// with the volume-update strobe (bit 8) in register 55.
pub open spec fn apply_set_volume_speaker(regs: Seq<u16>, vol: u8) -> Seq<u16> {
    regs.update(54, volume_word(vol)).update(55, volume_word(vol) | (1u16 << 8))
}

/// Register file after selecting the sample rate: a full overwrite of
/// register 7 with the rate's fixed code.
pub open spec fn apply_set_sample_rate(regs: Seq<u16>, rate: SampleRate) -> Seq<u16> {
    regs.update(7, sample_rate_code(rate))
}

/// Register file after configuring the audio interface: a full overwrite of
/// register 4 with the combined format and word-length codes.
pub open spec fn apply_set_i2s_configuration(
    regs: Seq<u16>,
    format: DataFormat,
    len: I2SWordLength,
) -> Seq<u16> {
    regs.update(4, i2s_word(format, len))
}

} // verus!
