//! The sysfs PWM driver model.
//!
//! The kernel exposes one PWM channel as a directory of control files; every
//! operation on the channel is a short decimal or keyword string written to
//! one of them. This module owns everything about those writes except the
//! write itself: the control file paths for a chip and channel, the period
//! for a frequency, the precomputed duty-cycle strings, and the exact
//! contents each operation must write. The surrounding process performs the
//! file I/O.

use crate::text::{parse_trimmed_u8, push_decimal, decimal_string, spec_decimal, spec_parse_u8};
use vstd::arithmetic::div_mod::lemma_div_nonincreasing;
use vstd::prelude::*;

verus! {

/// The polarity of the PWM signal: whether the duty cycle measures the
/// active-high or the active-low share of the period.
#[derive(Copy, Clone, Debug, PartialEq, Eq, Structural)]
pub enum Polarity {
    /// The duty cycle is the active-high time.
    Normal,
    /// The duty cycle is the active-low time.
    Inverse,
}

/// One write to perform against the sysfs PWM controls: these contents, to
/// this path.
#[derive(Debug)]
pub struct FileWrite {
    /// The control file to write.
    pub path: String,
    /// The exact bytes to write, as text.
    pub contents: String,
}

/// The directory of one PWM chip.
pub open spec fn spec_chip_dir(chip: u8) -> Seq<char> {
    "/sys/class/pwm/pwmchip"@ + spec_decimal(chip as nat)
}

/// The read-only control holding how many channels a chip supports.
pub open spec fn spec_max_channels_path(chip: u8) -> Seq<char> {
    spec_chip_dir(chip) + "/npwm"@
}

/// The write-only control that exports a channel.
pub open spec fn spec_export_path(chip: u8) -> Seq<char> {
    spec_chip_dir(chip) + "/export"@
}

/// The directory of one exported channel.
pub open spec fn spec_channel_dir(chip: u8, channel: u8) -> Seq<char> {
    spec_chip_dir(chip) + "/pwm"@ + spec_decimal(channel as nat)
}

/// The polarity control of a channel.
pub open spec fn spec_polarity_path(chip: u8, channel: u8) -> Seq<char> {
    spec_channel_dir(chip, channel) + "/polarity"@
}

/// The period control of a channel.
pub open spec fn spec_period_path(chip: u8, channel: u8) -> Seq<char> {
    spec_channel_dir(chip, channel) + "/period"@
}

/// The duty-cycle control of a channel.
pub open spec fn spec_duty_cycle_path(chip: u8, channel: u8) -> Seq<char> {
    spec_channel_dir(chip, channel) + "/duty_cycle"@
}

/// The enable control of a channel.
pub open spec fn spec_enable_path(chip: u8, channel: u8) -> Seq<char> {
    spec_channel_dir(chip, channel) + "/enable"@
}

/// The keyword the polarity control takes.
pub open spec fn spec_polarity_contents(polarity: Polarity) -> Seq<char> {
    match polarity {
        Polarity::Normal => "normal"@,
        Polarity::Inverse => "inverse"@,
    }
}

/// The duty-cycle percentage actually applied: the input clamped to 100.
pub open spec fn spec_clamped_duty(duty_cycle: u8) -> nat {
    if duty_cycle > 100 {
        100
    } else {
        duty_cycle as nat
    }
}

/// The on-time in nanoseconds written for one duty-cycle percentage of a
/// period, truncated to whole nanoseconds.
pub open spec fn spec_duty_on_time(period: u64, duty_cycle: u8) -> nat {
    (period as nat * spec_clamped_duty(duty_cycle)) / 100
}

/// A driver for one PWM channel: the paths of its controls and the
/// precomputed strings its operations write. Building one performs no I/O;
/// each operation returns the `FileWrite` the process must perform.
pub struct Driver {
    /// The chip the channel belongs to.
    chip: u8,
    /// The channel this driver controls.
    channel: u8,
    /// The period in nanoseconds, fixed at construction.
    period: u64,
    /// The period as the decimal string the period control takes.
    period_string: String,
    /// The on-time string for each duty-cycle percentage 0 ..= 100.
    duty_cycle_map: Vec<String>,
    /// Path of the chip's channel-count control.
    max_channels_path: String,
    /// Path of the chip's export control.
    export_path: String,
    /// Path of the channel's polarity control.
    polarity_path: String,
    /// Path of the channel's period control.
    period_path: String,
    /// Path of the channel's duty-cycle control.
    duty_cycle_path: String,
    /// Path of the channel's enable control.
    enable_path: String,
}

impl Driver {
    /// The chip this driver was built for.
    pub closed spec fn spec_chip(&self) -> u8 {
        self.chip
    }

    /// The channel this driver was built for.
    pub closed spec fn spec_channel(&self) -> u8 {
        self.channel
    }

    /// The period in nanoseconds this driver was built for.
    pub closed spec fn spec_period(&self) -> u64 {
        self.period
    }

    /// Every stored string matches the chip, channel and period the driver
    /// was built for.
    pub closed spec fn wf(&self) -> bool {
        &&& self.period_string@ == spec_decimal(self.period as nat)
        &&& self.duty_cycle_map@.len() == 101
        &&& (forall|i: int|
            0 <= i < 101 ==> (#[trigger] self.duty_cycle_map@[i])@ == spec_decimal(
                (self.period as nat * i as nat) / 100,
            ))
        &&& self.max_channels_path@ == spec_max_channels_path(self.chip)
        &&& self.export_path@ == spec_export_path(self.chip)
        &&& self.polarity_path@ == spec_polarity_path(self.chip, self.channel)
        &&& self.period_path@ == spec_period_path(self.chip, self.channel)
        &&& self.duty_cycle_path@ == spec_duty_cycle_path(self.chip, self.channel)
        &&& self.enable_path@ == spec_enable_path(self.chip, self.channel)
    }

    /// The on-time string for each whole duty-cycle percentage of the
    /// period, precomputed so the update loop never allocates.
    fn calculate_duty_cycle_map(period: u64) -> (strings: Vec<String>)
        requires
            period <= 1_000_000_000,
        ensures
            strings@.len() == 101,
            forall|i: int|
                0 <= i < 101 ==> (#[trigger] strings@[i])@ == spec_decimal(
                    (period as nat * i as nat) / 100,
                ),
    {
        let mut strings: Vec<String> = Vec::new();
        let mut i: u64 = 0;
        while i <= 100
            invariant
                period <= 1_000_000_000,
                i <= 101,
                strings@.len() == i,
                forall|j: int|
                    0 <= j < i ==> (#[trigger] strings@[j])@ == spec_decimal(
                        (period as nat * j as nat) / 100,
                    ),
            decreases 101 - i,
        {
            proof {
                assert(period * i <= period * 100) by (nonlinear_arith)
                    requires
                        i <= 100,
                        0 <= period,
                ;
            }
            strings.push(decimal_string(period * i / 100));
            i += 1;
        }
        strings
    }

    /// A driver for the given chip and channel, operating at the given
    /// frequency in Hz. Construction only computes paths and strings; the
    /// startup writes are issued separately.
    pub fn new(chip: u8, channel: u8, frequency: u16) -> (driver: Driver)
        requires
            frequency >= 1,
        ensures
            driver.wf(),
            driver.spec_chip() == chip,
            driver.spec_channel() == channel,
            driver.spec_period() == 1_000_000_000u64 / frequency as u64,
    {
        let period: u64 = 1_000_000_000u64 / (frequency as u64);
        proof {
            lemma_div_nonincreasing(1_000_000_000, frequency as int);
        }

        let mut chip_dir = String::from_str("/sys/class/pwm/pwmchip");
        push_decimal(chip as u64, &mut chip_dir);

        let mut channel_dir = chip_dir.clone();
        channel_dir.append("/pwm");
        push_decimal(channel as u64, &mut channel_dir);

        let mut max_channels_path = chip_dir.clone();
        max_channels_path.append("/npwm");
        let mut export_path = chip_dir.clone();
        export_path.append("/export");
        let mut polarity_path = channel_dir.clone();
        polarity_path.append("/polarity");
        let mut period_path = channel_dir.clone();
        period_path.append("/period");
        let mut duty_cycle_path = channel_dir.clone();
        duty_cycle_path.append("/duty_cycle");
        let mut enable_path = channel_dir.clone();
        enable_path.append("/enable");

        proof {
            assert(chip_dir@ =~= spec_chip_dir(chip));
            assert(channel_dir@ =~= spec_channel_dir(chip, channel));
            assert(max_channels_path@ =~= spec_max_channels_path(chip));
            assert(export_path@ =~= spec_export_path(chip));
            assert(polarity_path@ =~= spec_polarity_path(chip, channel));
            assert(period_path@ =~= spec_period_path(chip, channel));
            assert(duty_cycle_path@ =~= spec_duty_cycle_path(chip, channel));
            assert(enable_path@ =~= spec_enable_path(chip, channel));
        }

        Driver {
            chip,
            channel,
            period,
            period_string: decimal_string(period),
            duty_cycle_map: Self::calculate_duty_cycle_map(period),
            max_channels_path,
            export_path,
            polarity_path,
            period_path,
            duty_cycle_path,
            enable_path,
        }
    }

    /// Path of the chip's channel-count control, for the process to read.
    pub fn max_channels_path(&self) -> (path: &String)
        requires
            self.wf(),
        ensures
            path@ == spec_max_channels_path(self.spec_chip()),
    {
        &self.max_channels_path
    }

    /// Path of the channel's enable control; its existence tells whether the
    /// channel is already exported.
    pub fn enable_path(&self) -> (path: &String)
        requires
            self.wf(),
        ensures
            path@ == spec_enable_path(self.spec_chip(), self.spec_channel()),
    {
        &self.enable_path
    }

    /// Whether the chip has enough channels for this driver, judged from the
    /// contents of its channel-count control.
    pub fn check_available_channels(&self, npwm_contents: &str) -> (r: Result<
        (),
        &'static str,
    >)
        requires
            self.wf(),
        ensures
            (r is Ok) == (spec_parse_u8(npwm_contents@) matches Some(count)
                && self.spec_channel() <= count),
            r matches Err(message) ==> message@ == (if spec_parse_u8(npwm_contents@) is None {
                "unable to parse pwm channel count: perhaps it is configured incorrectly?"@
            } else {
                "there aren't enough channels on the specified chip to support the pwm interface"@
            }),
    {
        match parse_trimmed_u8(npwm_contents) {
            Some(available_channels) => {
                if self.channel > available_channels {
                    Err("there aren't enough channels on the specified chip to support the pwm interface")
                } else {
                    Ok(())
                }
            },
            None => Err("unable to parse pwm channel count: perhaps it is configured incorrectly?"),
        }
    }

    /// The write that exports this channel from its chip, needed once when
    /// the channel's controls do not exist yet.
    pub fn export_write(&self) -> (w: FileWrite)
        requires
            self.wf(),
        ensures
            w.path@ == spec_export_path(self.spec_chip()),
            w.contents@ == spec_decimal(self.spec_channel() as nat),
    {
        FileWrite { path: self.export_path.clone(), contents: decimal_string(self.channel as u64) }
    }

    /// The write that sets the channel's polarity.
    pub fn set_polarity(&self, polarity: Polarity) -> (w: FileWrite)
        requires
            self.wf(),
        ensures
            w.path@ == spec_polarity_path(self.spec_chip(), self.spec_channel()),
            w.contents@ == spec_polarity_contents(polarity),
    {
        let contents = match polarity {
            Polarity::Normal => String::from_str("normal"),
            Polarity::Inverse => String::from_str("inverse"),
        };
        FileWrite { path: self.polarity_path.clone(), contents }
    }

    /// The write that sets the channel's period to the one this driver was
    /// built for.
    pub fn set_frequency(&self) -> (w: FileWrite)
        requires
            self.wf(),
        ensures
            w.path@ == spec_period_path(self.spec_chip(), self.spec_channel()),
            w.contents@ == spec_decimal(self.spec_period() as nat),
    {
        FileWrite { path: self.period_path.clone(), contents: self.period_string.clone() }
    }

    /// The write that sets the channel's duty cycle to a percentage of the
    /// period, clamped to 100, from the precomputed strings.
    pub fn set_duty_cycle(&self, duty_cycle: u8) -> (w: FileWrite)
        requires
            self.wf(),
        ensures
            w.path@ == spec_duty_cycle_path(self.spec_chip(), self.spec_channel()),
            w.contents@ == spec_decimal(spec_duty_on_time(self.spec_period(), duty_cycle)),
    {
        let clamped: usize = if duty_cycle > 100 {
            100
        } else {
            duty_cycle as usize
        };
        FileWrite {
            path: self.duty_cycle_path.clone(),
            contents: self.duty_cycle_map[clamped].clone(),
        }
    }

    /// The write that enables or disables the channel.
    pub fn set_enabled(&self, enabled: bool) -> (w: FileWrite)
        requires
            self.wf(),
        ensures
            w.path@ == spec_enable_path(self.spec_chip(), self.spec_channel()),
            w.contents@ == (if enabled {
                "1"@
            } else {
                "0"@
            }),
    {
        let contents = if enabled {
            String::from_str("1")
        } else {
            String::from_str("0")
        };
        FileWrite { path: self.enable_path.clone(), contents }
    }

    /// The startup writes, in mandatory order: normal polarity, the period,
    /// duty cycle 0, and finally enable.
    pub fn startup_writes(&self) -> (writes: Vec<FileWrite>)
        requires
            self.wf(),
        ensures
            writes@.len() == 4,
            writes@[0].path@ == spec_polarity_path(self.spec_chip(), self.spec_channel()),
            writes@[0].contents@ == spec_polarity_contents(Polarity::Normal),
            writes@[1].path@ == spec_period_path(self.spec_chip(), self.spec_channel()),
            writes@[1].contents@ == spec_decimal(self.spec_period() as nat),
            writes@[2].path@ == spec_duty_cycle_path(self.spec_chip(), self.spec_channel()),
            writes@[2].contents@ == spec_decimal(spec_duty_on_time(self.spec_period(), 0)),
            writes@[3].path@ == spec_enable_path(self.spec_chip(), self.spec_channel()),
            writes@[3].contents@ == "1"@,
    {
        let mut writes: Vec<FileWrite> = Vec::new();
        writes.push(self.set_polarity(Polarity::Normal));
        writes.push(self.set_frequency());
        writes.push(self.set_duty_cycle(0));
        writes.push(self.set_enabled(true));
        writes
    }

    /// The scoped-release writes, in order: duty cycle 0, then disable. The
    /// process issues them when it lets go of the channel outside the
    /// signal-initiated shutdown path.
    pub fn shutdown_writes(&self) -> (writes: Vec<FileWrite>)
        requires
            self.wf(),
        ensures
            writes@.len() == 2,
            writes@[0].path@ == spec_duty_cycle_path(self.spec_chip(), self.spec_channel()),
            writes@[0].contents@ == spec_decimal(spec_duty_on_time(self.spec_period(), 0)),
            writes@[1].path@ == spec_enable_path(self.spec_chip(), self.spec_channel()),
            writes@[1].contents@ == "0"@,
    {
        let mut writes: Vec<FileWrite> = Vec::new();
        writes.push(self.set_duty_cycle(0));
        writes.push(self.set_enabled(false));
        writes
    }
}

} // verus!
