//! Laws the register store and the configuration encoders obey.
//!
//! The store law says a write is read back exactly and touches nothing else.
//! The idempotence laws say that applying a configuration operation twice
//! with identical parameters leaves the same register file as applying it
//! once.

use vstd::prelude::*;

use crate::encoding::{
    apply_init, apply_set_adc_dac, apply_set_aux_gain, apply_set_eq, apply_set_i2s_configuration,
    apply_set_inputs, apply_set_linein_gain, apply_set_mic_gain, apply_set_outputs,
    apply_set_sample_rate, apply_set_volume_headphone, apply_set_volume_speaker, aux_gain_word,
    linein_gain_word, mic_enable_word, mic_input_word, path_enable_word, DataFormat,
    I2SWordLength, SampleRate,
};
use crate::image::REG_COUNT;

verus! {

/// A write to a valid register index is read back exactly: the written index
/// holds the written word, every other register keeps its word, and the
/// store's size does not change.
pub proof fn lemma_write_then_read(regs: Seq<u16>, i: int, v: u16)
    requires
        regs.len() == REG_COUNT,
        0 <= i < REG_COUNT,
    ensures
        regs.update(i, v)[i] == v,
        forall|j: int| 0 <= j < REG_COUNT && j != i ==> regs.update(i, v)[j] == regs[j],
        regs.update(i, v).len() == REG_COUNT,
{
}

/// Setting the same path-enable bits twice leaves the word of the first
/// setting.
proof fn lemma_path_enable_word_stable(w: u16, on: bool)
    ensures
        path_enable_word(path_enable_word(w, on), on) == path_enable_word(w, on),
{
    if on {
        assert((w | 3) | 3 == w | 3) by (bit_vector);
    } else {
        assert((w & !3) & !3 == w & !3) by (bit_vector);
    }
}

/// Setting the same microphone-enable bits twice leaves the word of the
/// first setting.
proof fn lemma_mic_enable_word_stable(w: u16, on: bool)
    ensures
        mic_enable_word(mic_enable_word(w, on), on) == mic_enable_word(w, on),
{
    if on {
        assert((w | (3u16 << 2)) | (3u16 << 2) == w | (3u16 << 2)) by (bit_vector);
    } else {
        assert((w & !(3u16 << 2)) & !(3u16 << 2) == w & !(3u16 << 2)) by (bit_vector);
    }
}

/// Setting the same microphone input-path routing bits twice leaves the word
/// of the first setting.
proof fn lemma_mic_input_word_stable(w: u16, on: bool)
    ensures
        mic_input_word(mic_input_word(w, on), on) == mic_input_word(w, on),
{
    if on {
        assert((w | (3u16 << 4) | (3u16 << 0)) | (3u16 << 4) | (3u16 << 0) == w | (3u16 << 4) | (
        3u16 << 0)) by (bit_vector);
    } else {
        assert((w & !((3u16 << 4) | (3u16 << 0))) & !((3u16 << 4) | (3u16 << 0)) == w & !((3u16
            << 4) | (3u16 << 0))) by (bit_vector);
    }
}

/// Replacing the line-in gain field with the same gain twice leaves the word
/// of the first replacement.
proof fn lemma_linein_gain_word_stable(w: u16, gain: u8)
    ensures
        linein_gain_word(linein_gain_word(w, gain), gain) == linein_gain_word(w, gain),
{
    assert(((w & !(7u16 << 4)) | (((gain & 7) << 4) as u16)) & !(7u16 << 4) | (((gain & 7) << 4)
        as u16) == (w & !(7u16 << 4)) | (((gain & 7) << 4) as u16)) by (bit_vector);
}

/// Replacing the auxiliary-input gain field with the same gain twice leaves
/// the word of the first replacement.
proof fn lemma_aux_gain_word_stable(w: u16, gain: u8)
    ensures
        aux_gain_word(aux_gain_word(w, gain), gain) == aux_gain_word(w, gain),
{
    assert(((w & !7) | ((gain & 7) as u16)) & !7 | ((gain & 7) as u16) == (w & !7) | ((gain & 7)
        as u16)) by (bit_vector);
}

/// Replacing the line-in gain field and then the auxiliary gain field a
/// second time, on a word that already carries both, leaves the word
/// unchanged: the two fields do not overlap.
proof fn lemma_linein_then_aux_stable(w: u16, linein_gain: u8, aux_gain: u8)
    ensures
        aux_gain_word(
            linein_gain_word(aux_gain_word(linein_gain_word(w, linein_gain), aux_gain), linein_gain),
            aux_gain,
        ) == aux_gain_word(linein_gain_word(w, linein_gain), aux_gain),
{
    assert((((((((w & !(7u16 << 4)) | (((linein_gain & 7) << 4) as u16)) & !7) | ((aux_gain & 7)
        as u16)) & !(7u16 << 4)) | (((linein_gain & 7) << 4) as u16)) & !7) | ((aux_gain & 7)
        as u16) == (((w & !(7u16 << 4)) | (((linein_gain & 7) << 4) as u16)) & !7) | ((aux_gain
        & 7) as u16)) by (bit_vector);
}

/// The power-on initialization sequence is idempotent: running it twice
/// leaves the register file of one run.
pub proof fn lemma_init_idempotent(regs: Seq<u16>)
    requires
        regs.len() == REG_COUNT,
    ensures
        apply_init(apply_init(regs)) == apply_init(regs),
{
    assert(apply_init(apply_init(regs)) =~= apply_init(regs));
}

/// Enabling or disabling the DAC and ADC paths is idempotent.
pub proof fn lemma_set_adc_dac_idempotent(regs: Seq<u16>, dac: bool, adc: bool)
    requires
        regs.len() == REG_COUNT,
    ensures
        apply_set_adc_dac(apply_set_adc_dac(regs, dac, adc), dac, adc) == apply_set_adc_dac(
            regs,
            dac,
            adc,
        ),
{
    lemma_path_enable_word_stable(regs[3], dac);
    lemma_path_enable_word_stable(regs[2], adc);
    assert(apply_set_adc_dac(apply_set_adc_dac(regs, dac, adc), dac, adc) =~= apply_set_adc_dac(
        regs,
        dac,
        adc,
    ));
}

/// Setting the microphone gain is idempotent.
pub proof fn lemma_set_mic_gain_idempotent(regs: Seq<u16>, gain: u8)
    requires
        regs.len() == REG_COUNT,
    ensures
        apply_set_mic_gain(apply_set_mic_gain(regs, gain), gain) == apply_set_mic_gain(regs, gain),
{
    assert(apply_set_mic_gain(apply_set_mic_gain(regs, gain), gain) =~= apply_set_mic_gain(
        regs,
        gain,
    ));
}

/// Setting the line-in gain is idempotent.
pub proof fn lemma_set_linein_gain_idempotent(regs: Seq<u16>, gain: u8)
    requires
        regs.len() == REG_COUNT,
    ensures
        apply_set_linein_gain(apply_set_linein_gain(regs, gain), gain) == apply_set_linein_gain(
            regs,
            gain,
        ),
{
    lemma_linein_gain_word_stable(regs[47], gain);
    lemma_linein_gain_word_stable(regs[48], gain);
    assert(apply_set_linein_gain(apply_set_linein_gain(regs, gain), gain)
        =~= apply_set_linein_gain(regs, gain));
}

/// Setting the auxiliary-input gain is idempotent.
pub proof fn lemma_set_aux_gain_idempotent(regs: Seq<u16>, gain: u8)
    requires
        regs.len() == REG_COUNT,
    ensures
        apply_set_aux_gain(apply_set_aux_gain(regs, gain), gain) == apply_set_aux_gain(regs, gain),
{
    lemma_aux_gain_word_stable(regs[47], gain);
    lemma_aux_gain_word_stable(regs[48], gain);
    assert(apply_set_aux_gain(apply_set_aux_gain(regs, gain), gain) =~= apply_set_aux_gain(
        regs,
        gain,
    ));
}

/// Selecting the active inputs is idempotent.
pub proof fn lemma_set_inputs_idempotent(regs: Seq<u16>, mic: bool, linein: bool, aux: bool)
    requires
        regs.len() == REG_COUNT,
    ensures
        apply_set_inputs(apply_set_inputs(regs, mic, linein, aux), mic, linein, aux)
            == apply_set_inputs(regs, mic, linein, aux),
{
    let gl: u8 = if linein {
        5u8
    } else {
        0u8
    };
    let ga: u8 = if aux {
        7u8
    } else {
        0u8
    };
    lemma_mic_enable_word_stable(regs[2], mic);
    lemma_mic_input_word_stable(regs[44], mic);
    lemma_linein_then_aux_stable(regs[47], gl, ga);
    lemma_linein_then_aux_stable(regs[48], gl, ga);
    assert(apply_set_inputs(apply_set_inputs(regs, mic, linein, aux), mic, linein, aux)
        =~= apply_set_inputs(regs, mic, linein, aux));
}

/// Setting an equalizer band is idempotent.
pub proof fn lemma_set_eq_idempotent(regs: Seq<u16>, band: crate::encoding::Eq, cfreq: u8, gain: u8)
    requires
        regs.len() == REG_COUNT,
    ensures
        apply_set_eq(apply_set_eq(regs, band, cfreq, gain), band, cfreq, gain) == apply_set_eq(
            regs,
            band,
            cfreq,
            gain,
        ),
{
    assert(apply_set_eq(apply_set_eq(regs, band, cfreq, gain), band, cfreq, gain) =~= apply_set_eq(
        regs,
        band,
        cfreq,
        gain,
    ));
}

/// Setting the output routing is idempotent.
pub proof fn lemma_set_outputs_idempotent(regs: Seq<u16>, dac: bool, bypass: bool)
    requires
        regs.len() == REG_COUNT,
    ensures
        apply_set_outputs(apply_set_outputs(regs, dac, bypass), dac, bypass) == apply_set_outputs(
            regs,
            dac,
            bypass,
        ),
{
    assert(apply_set_outputs(apply_set_outputs(regs, dac, bypass), dac, bypass)
        =~= apply_set_outputs(regs, dac, bypass));
}

/// Setting the headphone volumes is idempotent.
pub proof fn lemma_set_volume_headphone_idempotent(regs: Seq<u16>, vol_l: u8, vol_r: u8)
    requires
        regs.len() == REG_COUNT,
    ensures
        apply_set_volume_headphone(apply_set_volume_headphone(regs, vol_l, vol_r), vol_l, vol_r)
            == apply_set_volume_headphone(regs, vol_l, vol_r),
{
    assert(apply_set_volume_headphone(apply_set_volume_headphone(regs, vol_l, vol_r), vol_l, vol_r)
        =~= apply_set_volume_headphone(regs, vol_l, vol_r));
}

/// Setting the speaker volume is idempotent.
pub proof fn lemma_set_volume_speaker_idempotent(regs: Seq<u16>, vol: u8)
    requires
        regs.len() == REG_COUNT,
    ensures
        apply_set_volume_speaker(apply_set_volume_speaker(regs, vol), vol)
            == apply_set_volume_speaker(regs, vol),
{
    assert(apply_set_volume_speaker(apply_set_volume_speaker(regs, vol), vol)
        =~= apply_set_volume_speaker(regs, vol));
}

/// Selecting the sample rate is idempotent.
pub proof fn lemma_set_sample_rate_idempotent(regs: Seq<u16>, rate: SampleRate)
    requires
        regs.len() == REG_COUNT,
    ensures
        apply_set_sample_rate(apply_set_sample_rate(regs, rate), rate) == apply_set_sample_rate(
            regs,
            rate,
        ),
{
    assert(apply_set_sample_rate(apply_set_sample_rate(regs, rate), rate)
        =~= apply_set_sample_rate(regs, rate));
}

/// Configuring the digital audio interface is idempotent.
pub proof fn lemma_set_i2s_configuration_idempotent(
    regs: Seq<u16>,
    format: DataFormat,
    len: I2SWordLength,
)
    requires
        regs.len() == REG_COUNT,
    ensures
        apply_set_i2s_configuration(apply_set_i2s_configuration(regs, format, len), format, len)
            == apply_set_i2s_configuration(regs, format, len),
{
    assert(apply_set_i2s_configuration(apply_set_i2s_configuration(regs, format, len), format, len)
        =~= apply_set_i2s_configuration(regs, format, len));
}

} // verus!
