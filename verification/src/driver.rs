//! The driver handle: a shadow of the chip's register file together with the
//! bus transport handle, and the semantic configuration operations.

use vstd::prelude::*;

use crate::encoding::{
    apply_init, apply_set_adc_dac, apply_set_aux_gain, apply_set_eq, apply_set_i2s_configuration,
    apply_set_inputs, apply_set_linein_gain, apply_set_mic_gain, apply_set_outputs,
    apply_set_sample_rate, apply_set_volume_headphone, apply_set_volume_speaker, DataFormat,
    I2SWordLength, SampleRate,
};
use crate::image::{default_image, default_registers, REG_COUNT};

verus! {

/// Failures a driver operation can report.
#[derive(Clone, Debug, PartialEq)]
pub enum DriverError {
    /// Underlying bus transaction failed.
    I2c,
    /// A register index at or beyond the end of the register file.
    OutOfBounds,
    /// Device failed to resume from reset.
    ResetTimeout,
}

/// Driver for one WM8978 codec chip: owns the bus transport handle and the
/// in-memory shadow of the chip's 58 configuration registers.
///
/// The transport is an opaque collaborator chosen by the platform layer; the
/// operations here update only the shadow.
pub struct Wm8978Driver<I2C> {
    /// Bus transport handle, owned for the driver's lifetime.
    pub i2c: I2C,
    /// Shadow of the chip's register file, one 16-bit word per register.
    pub registers: Vec<u16>,
}

impl<I2C> View for Wm8978Driver<I2C> {
    type V = Seq<u16>;

    open spec fn view(&self) -> Seq<u16> {
        self.registers@
    }
}

impl<I2C> Wm8978Driver<I2C> {
    /// The shadow mirrors the full register file: one word per register.
    pub open spec fn wf(self) -> bool {
        self@.len() == REG_COUNT
    }

    /// Creates a driver whose shadow holds the chip's power-on-reset image.
    pub fn new(i2c: I2C) -> (r: Self)
        ensures
            r.wf(),
            r@ == default_image(),
            r.i2c == i2c,
    {
        Wm8978Driver { i2c, registers: default_registers() }
    }

    /// Returns the shadow word of register `reg`, or `OutOfBounds` for an
    /// index at or beyond the end of the register file.
    pub fn read_reg(&self, reg: usize) -> (r: Result<u16, DriverError>)
        requires
            self.wf(),
        ensures
            reg < REG_COUNT ==> r == Ok::<u16, DriverError>(self@[reg as int]),
            reg >= REG_COUNT ==> r == Err::<u16, DriverError>(DriverError::OutOfBounds),
    {
        if reg < REG_COUNT {
            Ok(self.registers[reg])
        } else {
            Err(DriverError::OutOfBounds)
        }
    }

    /// Replaces the shadow word of register `reg` in one atomic word write,
    /// or fails with `OutOfBounds` leaving the store unmodified.
    pub fn write_reg(&mut self, reg: usize, val: u16) -> (r: Result<(), DriverError>)
        requires
            old(self).wf(),
        ensures
            final(self).wf(),
            final(self).i2c == old(self).i2c,
            reg < REG_COUNT ==> r == Ok::<(), DriverError>(())
                && final(self)@ == old(self)@.update(reg as int, val),
            reg >= REG_COUNT ==> r == Err::<(), DriverError>(DriverError::OutOfBounds)
                && *final(self) == *old(self),
    {
        if reg < REG_COUNT {
            self.registers[reg] = val;
            Ok(())
        } else {
            Err(DriverError::OutOfBounds)
        }
    }

    /// Applies the fixed known-good power-up sequence: reset, bias and
    /// microphone enables, output enables, MCLK divider, output invert, PGA
    /// boost enables, thermal shutdown enable, and oversampling rates.
    pub fn init(&mut self) -> (r: Result<(), DriverError>)
        requires
            old(self).wf(),
        ensures
            final(self).wf(),
            final(self).i2c == old(self).i2c,
            r is Ok,
            final(self)@ == apply_init(old(self)@),
    {
        self.write_reg(0, 0)?;  // reset
        self.write_reg(1, 0x9B)?;  // OUT4MIXEN, MICEN, BIASEN, VMIDSEL[1:0]
        self.write_reg(2, 0x1B0)?;  // ROUT1, LOUT1, BOOSTENR, BOOSTENL
        self.write_reg(3, 0x16C)?;  // OUT4EN, LOUT2EN, ROUT2EN, RMIXEN, LMIXEN
        self.write_reg(6, 0)?;  // MCLK
        self.write_reg(43, 1 << 4)?;  // INVROUT2
        self.write_reg(47, 1 << 8)?;  // PGABOOSTL
        self.write_reg(48, 1 << 8)?;  // PGABOOSTR
        self.write_reg(49, 1 << 1)?;  // TSDEN
        self.write_reg(10, 1 << 3)?;  // DACOSR
        self.write_reg(14, 1 << 3)?;  // ADCOSR
        Ok(())
    }

    /// Enables or disables the DAC path (register 3, bits 0-1) and the ADC
    /// path (register 2, bits 0-1), preserving the other bits.
    pub fn set_adc_dac(&mut self, dac: bool, adc: bool) -> (r: Result<(), DriverError>)
        requires
            old(self).wf(),
        ensures
            final(self).wf(),
            final(self).i2c == old(self).i2c,
            r is Ok,
            final(self)@ == apply_set_adc_dac(old(self)@, dac, adc),
    {
        let reg_val: u16 = self.read_reg(3).unwrap();
        let new_val: u16 = if dac {
            reg_val | 3
        } else {
            reg_val & !3
        };
        self.write_reg(3, new_val)?;

        let reg_val: u16 = self.read_reg(2).unwrap();
        let new_val: u16 = if adc {
            reg_val | 3
        } else {
            reg_val & !3
        };
        self.write_reg(2, new_val)?;
        Ok(())
    }

    /// Sets the microphone gain (masked to its 6-bit field) in registers 45
    /// and 46; register 46 additionally carries the volume-update strobe.
    pub fn set_mic_gain(&mut self, gain: u8) -> (r: Result<(), DriverError>)
        requires
            old(self).wf(),
        ensures
            final(self).wf(),
            final(self).i2c == old(self).i2c,
            r is Ok,
            final(self)@ == apply_set_mic_gain(old(self)@, gain),
    {
        self.write_reg(45, (gain & 0x3F) as u16)?;
        self.write_reg(46, (gain & 0x3F) as u16 | 1 << 8)?;
        Ok(())
    }

    /// Sets the line-in gain (3-bit field at bit offset 4) in registers 47
    /// and 48, preserving the other bits.
    pub fn set_linein_gain(&mut self, gain: u8) -> (r: Result<(), DriverError>)
        requires
            old(self).wf(),
        ensures
            final(self).wf(),
            final(self).i2c == old(self).i2c,
            r is Ok,
            final(self)@ == apply_set_linein_gain(old(self)@, gain),
    {
        let regval: u16 = self.read_reg(47).unwrap() & !(7 << 4);
        self.write_reg(47, regval | ((gain & 7) << 4) as u16)?;

        let regval: u16 = self.read_reg(48).unwrap() & !(7 << 4);
        self.write_reg(48, regval | ((gain & 7) << 4) as u16)?;
        Ok(())
    }

    /// Sets the auxiliary-input gain (3-bit field at bit offset 0) in
    /// registers 47 and 48, preserving the other bits.
    pub fn set_aux_gain(&mut self, gain: u8) -> (r: Result<(), DriverError>)
        requires
            old(self).wf(),
        ensures
            final(self).wf(),
            final(self).i2c == old(self).i2c,
            r is Ok,
            final(self)@ == apply_set_aux_gain(old(self)@, gain),
    {
        let regval: u16 = self.read_reg(47).unwrap() & !7;
        self.write_reg(47, regval | (gain & 7) as u16)?;

        let regval: u16 = self.read_reg(48).unwrap() & !7;
        self.write_reg(48, regval | (gain & 7) as u16)?;
        Ok(())
    }

    /// Selects the active inputs: microphone enable pairs in registers 2 and
    /// 44, then the fixed line-in gain (5 when enabled, 0 when not) and
    /// auxiliary gain (7 when enabled, 0 when not).
    pub fn set_inputs(&mut self, mic: bool, linein: bool, aux: bool) -> (r: Result<
        (),
        DriverError,
    >)
        requires
            old(self).wf(),
        ensures
            final(self).wf(),
            final(self).i2c == old(self).i2c,
            r is Ok,
            final(self)@ == apply_set_inputs(old(self)@, mic, linein, aux),
    {
        // R2 INPPGAENR, INPPGAENL
        let reg_val: u16 = self.read_reg(2).unwrap();
        let new_val: u16 = if mic {
            reg_val | (3 << 2)
        } else {
            reg_val & !(3 << 2)
        };
        self.write_reg(2, new_val)?;

        // R44 LIN2INPPGA, LIP2INPGA, RIN2INPPGA, RIP2INPGA
        let reg_val: u16 = self.read_reg(44).unwrap();
        let new_val: u16 = if mic {
            reg_val | (3 << 4) | (3 << 0)
        } else {
            reg_val & !((3 << 4) | (3 << 0))
        };
        self.write_reg(44, new_val)?;

        if linein {
            self.set_linein_gain(5)?;  // 0dB
        } else {
            self.set_linein_gain(0)?;
        }
        if aux {
            self.set_aux_gain(7)?;  // 6dB
        } else {
            self.set_aux_gain(0)?;
        }
        Ok(())
    }

    /// Sets one equalizer band from its attenuation-coded gain and 2-bit
    /// cutoff-frequency field. Band One masks the computed word against
    /// 0x100, keeping only bit 8: a documented quirk of this encoder,
    /// preserved as-is.
    pub fn set_eq(&mut self, eq: crate::encoding::Eq, cfreq: u8, gain: u8) -> (r: Result<
        (),
        DriverError,
    >)
        requires
            old(self).wf(),
        ensures
            final(self).wf(),
            final(self).i2c == old(self).i2c,
            r is Ok,
            final(self)@ == apply_set_eq(old(self)@, eq, cfreq, gain),
    {
        let base: u16 = if gain < 24 {
            24 - (gain as u16)
        } else {
            0
        };
        let reg_val: u16 = base | (((cfreq as u16) & 3) << 5);
        match eq {
            crate::encoding::Eq::One => self.write_reg(18, reg_val & 0x100),
            crate::encoding::Eq::Two => self.write_reg(19, reg_val),
            crate::encoding::Eq::Three => self.write_reg(20, reg_val),
            crate::encoding::Eq::Four => self.write_reg(21, reg_val),
            crate::encoding::Eq::Five => self.write_reg(22, reg_val),
        }
    }

    /// Sets the output routing word (DAC enable bit, and on bypass the
    /// bypass bit plus a fixed gain-of-5 field) in registers 50 and 51.
    pub fn set_outputs(&mut self, dac: bool, bypass: bool) -> (r: Result<(), DriverError>)
        requires
            old(self).wf(),
        ensures
            final(self).wf(),
            final(self).i2c == old(self).i2c,
            r is Ok,
            final(self)@ == apply_set_outputs(old(self)@, dac, bypass),
    {
        let base: u16 = if dac {
            1
        } else {
            0
        };
        let reg_val: u16 = if bypass {
            base | (1 << 1) | (5 << 2)  // BYPASS, 0dB
        } else {
            base
        };
        self.write_reg(50, reg_val)?;
        self.write_reg(51, reg_val)
    }

    /// Sets the left and right headphone volumes in registers 52 and 53: a
    /// zero volume maps to the mute flag, and register 53 carries the
    /// volume-update strobe.
    pub fn set_volume_headphone(&mut self, vol_l: u8, vol_r: u8) -> (r: Result<
        (),
        DriverError,
    >)
        requires
            old(self).wf(),
        ensures
            final(self).wf(),
            final(self).i2c == old(self).i2c,
            r is Ok,
            final(self)@ == apply_set_volume_headphone(old(self)@, vol_l, vol_r),
    {
        let reg_l: u8 = if vol_l == 0 {
            1 << 6
        } else {
            vol_l & 0x3F
        };
        let reg_r: u8 = if vol_r == 0 {
            1 << 6
        } else {
            vol_r & 0x3F
        };
        self.write_reg(52, reg_l as u16)?;
        self.write_reg(53, (reg_r as u16) | 1 << 8)  // HPVU = 1
    }

    /// Sets the speaker volume in registers 54 and 55 with the same
    /// 6-bit-or-mute-flag encoding; register 55 carries the volume-update
    /// strobe.
    pub fn set_volume_speaker(&mut self, vol: u8) -> (r: Result<(), DriverError>)
        requires
            old(self).wf(),
        ensures
            final(self).wf(),
            final(self).i2c == old(self).i2c,
            r is Ok,
            final(self)@ == apply_set_volume_speaker(old(self)@, vol),
    {
        let reg_val: u8 = if vol == 0 {
            1 << 6
        } else {
            vol & 0x3F
        };
        self.write_reg(54, reg_val as u16)?;
        self.write_reg(55, (reg_val as u16) | 1 << 8)  // SPKVU = 1
    }

    /// Selects the sample rate: a full overwrite of register 7 with the
    /// rate's fixed code.
    pub fn set_sample_rate(&mut self, sample_rate: SampleRate) -> (r: Result<(), DriverError>)
        requires
            old(self).wf(),
        ensures
            final(self).wf(),
            final(self).i2c == old(self).i2c,
            r is Ok,
            final(self)@ == apply_set_sample_rate(old(self)@, sample_rate),
    {
        let reg_val: u16 = match sample_rate {
            SampleRate::FortyEightkHz => 0x0,
            SampleRate::ThirtyTwokHz => 0x2,
            SampleRate::TwentyFourkHz => 0x4,
            SampleRate::SixteenkHz => 0x6,
            SampleRate::TwelvekHz => 0x8,
            SampleRate::EightkHz => 0xA,
        };
        self.write_reg(7, reg_val)
    }

    /// Configures the digital audio interface: a full overwrite of register 4
    /// with the frame-format code at bit offset 3 combined with the
    /// word-length code at bit offset 5.
    pub fn set_i2s_configuration(&mut self, format: DataFormat, len: I2SWordLength) -> (r:
        Result<(), DriverError>)
        requires
            old(self).wf(),
        ensures
            final(self).wf(),
            final(self).i2c == old(self).i2c,
            r is Ok,
            final(self)@ == apply_set_i2s_configuration(old(self)@, format, len),
    {
        let reg_len: u16 = match len {
            I2SWordLength::SixteenBits => 0x0,
            I2SWordLength::TwentyBits => 0x1,
            I2SWordLength::TwentyFourBits => 0x10,
            I2SWordLength::ThirtyTwoBits => 0x11,
        };
        let reg_fmt: u16 = match format {
            DataFormat::RightJustified => 0x0,
            DataFormat::LeftJustified => 0x1,
            DataFormat::I2S => 0x10,
            DataFormat::DspPCM => 0x11,
        };
        self.write_reg(4, (reg_fmt << 3) | (reg_len << 5))
    }
}

} // verus!
