//! The battery field of the line.
//!
//! The field is made from what two files of the battery's device directory
//! held, one with the charging status and one with the charge in percent.
//! Either may have been unreadable; each is then a soft failure of its own.

use vstd::prelude::*;
use vstd::string::*;
use crate::text::same_text;
use crate::warning::Warning;

verus! {

/// The file that holds the charging status.
pub const STATUS_PATH: &'static str = "/sys/class/power_supply/BAT0/status";

/// The file that holds the charge in percent.
pub const CAPACITY_PATH: &'static str = "/sys/class/power_supply/BAT0/capacity";

/// What the field shows when the capacity could not be read.
pub const SENTINEL: &'static str = "error";

/// What the status file holds while the battery charges.
pub const CHARGING: &'static str = "Charging\n";

/// What is put before the charge while the battery charges.
pub const CHARGING_MARK: &'static str = "(crg) ";

/// The field and the warnings that go with it.
#[derive(Debug)]
pub struct BatteryReading {
    pub text: String,
    pub warnings: Vec<Warning>,
}

/// What was read from a file, where it could be read.
pub open spec fn content(read: Option<&str>) -> Option<Seq<char>> {
    match read {
        Some(text) => Some(text@),
        None => None,
    }
}

/// `text` without its last character, which in a file of one line is the
/// line's end.
pub open spec fn without_last(text: Seq<char>) -> Seq<char> {
    if text.len() == 0 {
        text
    } else {
        text.drop_last()
    }
}

/// The field: the charge as the capacity file gave it, after the charging
/// mark if the status file says that the battery charges; the sentinel alone
/// if there is no capacity.
pub open spec fn battery_text(status: Option<Seq<char>>, capacity: Option<Seq<char>>) -> Seq<
    char,
> {
    match capacity {
        None => SENTINEL@,
        Some(charge) => if status == Some(CHARGING@) {
            CHARGING_MARK@ + without_last(charge)
        } else {
            without_last(charge)
        },
    }
}

/// One warning for each file that could not be read, the status first.
pub open spec fn battery_warnings(
    status: Option<Seq<char>>,
    capacity: Option<Seq<char>>,
) -> Seq<Warning> {
    let for_status = if status is None {
        seq![Warning::ChargingStatusMissing]
    } else {
        seq![]
    };
    if capacity is None {
        for_status.push(Warning::BatteryMissing)
    } else {
        for_status
    }
}

/// Without the capacity the field is the sentinel and the last warning says
/// that the battery was not found, whatever became of the status.
pub proof fn lemma_missing_capacity(status: Option<Seq<char>>)
    ensures
        battery_text(status, None) == SENTINEL@,
        battery_warnings(status, None).len() >= 1,
        battery_warnings(status, None).last() == Warning::BatteryMissing,
{
}

/// Without the status the charging mark is left out and the first warning
/// says so; the charge is shown as with a battery that does not charge.
pub proof fn lemma_missing_status(capacity: Seq<char>)
    ensures
        battery_text(None, Some(capacity)) == without_last(capacity),
        battery_warnings(None, Some(capacity)) == seq![Warning::ChargingStatusMissing],
{
}

/// The battery field, from what the status file and the capacity file held.
///
/// `None` stands for a file that could not be read. Without the status the
/// charging mark is left out; without the capacity the field is the
/// sentinel. Neither stops the tick.
pub fn battery_field(status: Option<&str>, capacity: Option<&str>) -> (reading: BatteryReading)
    ensures
        reading.text@ == battery_text(content(status), content(capacity)),
        reading.warnings@ == battery_warnings(content(status), content(capacity)),
{
    let mut warnings: Vec<Warning> = Vec::new();
    let mut text = String::new();
    match status {
        Some(status) => {
            if same_text(status, CHARGING) {
                text.append(CHARGING_MARK);
            }
        },
        None => {
            warnings.push(Warning::ChargingStatusMissing);
        },
    }
    match capacity {
        Some(charge) => {
            let len: usize = charge.unicode_len();
            if len > 0 {
                text.append(charge.substring_char(0, len - 1));
            }
            assert(text@ =~= battery_text(content(status), content(capacity)));
        },
        None => {
            warnings.push(Warning::BatteryMissing);
            text = String::from_str(SENTINEL);
        },
    }
    assert(warnings@ =~= battery_warnings(content(status), content(capacity)));
    BatteryReading { text, warnings }
}

} // verus!
