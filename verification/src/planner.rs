//! Plans the run's output directory: a collision-averse name derived from
//! the assignment name and the current timestamp, joined under a base path.
//!
//! Composing the path is pure and verified here; creating the directory is
//! filesystem work left to the caller, which reports failures as [`IOError`].

use vstd::prelude::*;
use vstd::string::StringExecFns;
use chrono::Datelike;
use chrono::Timelike;

verus! {

/// Why creating the output directory failed. Each failure is fatal to the
/// whole run: with no place for output, no clone is attempted.
#[derive(Debug, PartialEq, Eq, Structural)]
pub enum IOError {
    /// The composed path already exists. A second run for the same
    /// assignment within the clock's granularity collides; it is never
    /// silently merged.
    AlreadyExists,
    /// The base path refuses writing.
    PermissionDenied,
    /// The base path itself does not exist; it is never created implicitly.
    ParentMissing,
    /// Any other filesystem failure.
    Other,
}

/// A wall-clock instant at second resolution, as plain calendar fields.
#[derive(Clone, Copy, Debug, PartialEq, Eq, Structural)]
pub struct Timestamp {
    pub year: u32,
    pub month: u32,
    pub day: u32,
    pub hour: u32,
    pub minute: u32,
    pub second: u32,
}

/// Relies on `chrono::Local::now` and chrono's `Datelike` / `Timelike`
/// accessors: a reading of the local clock. chrono documents the month as
/// 1 to 12, the day as 1 to 31, the hour below 24, the minute and the
/// second below 60; nothing more holds of a clock reading.
#[verifier::external_body]
fn clock_now_parts() -> (t: (i32, u32, u32, u32, u32, u32))
    ensures
        1 <= t.1 <= 12,
        1 <= t.2 <= 31,
        t.3 < 24,
        t.4 < 60,
        t.5 < 60,
{
    let now = chrono::Local::now();
    (now.year(), now.month(), now.day(), now.hour(), now.minute(), now.second())
}

impl Timestamp {
    /// The fields form a calendar instant: what a clock reading yields.
    pub open spec fn wf(self) -> bool {
        &&& 1 <= self.month <= 12
        &&& 1 <= self.day <= 31
        &&& self.hour < 24
        &&& self.minute < 60
        &&& self.second < 60
    }

    /// Reads the local clock. A year before the common era — which no host
    /// clock yields — is pinned to zero so that every field is plain.
    pub fn now() -> (t: Timestamp)
        ensures
            t.wf(),
    {
        let (y, month, day, hour, minute, second) = clock_now_parts();
        let year: u32 = if y >= 0 {
            y as u32
        } else {
            0
        };
        Timestamp { year, month, day, hour, minute, second }
    }
}

/// The character for one decimal digit.
pub open spec fn digit_char(d: nat) -> char {
    if d == 0 {
        '0'
    } else if d == 1 {
        '1'
    } else if d == 2 {
        '2'
    } else if d == 3 {
        '3'
    } else if d == 4 {
        '4'
    } else if d == 5 {
        '5'
    } else if d == 6 {
        '6'
    } else if d == 7 {
        '7'
    } else if d == 8 {
        '8'
    } else {
        '9'
    }
}

/// The digit characters of `n` in base ten, most significant first.
pub open spec fn dec_seq(n: nat) -> Seq<char>
    decreases n,
{
    if n < 10 {
        seq![digit_char(n)]
    } else {
        dec_seq(n / 10).push(digit_char(n % 10))
    }
}

/// `n` in base ten, zero-padded on the left to at least two digits.
pub open spec fn pad2_seq(n: nat) -> Seq<char> {
    if n < 10 {
        seq!['0'] + dec_seq(n)
    } else {
        dec_seq(n)
    }
}

/// `n` in base ten, zero-padded on the left to at least four digits.
pub open spec fn pad4_seq(n: nat) -> Seq<char> {
    if n < 10 {
        seq!['0', '0', '0'] + dec_seq(n)
    } else if n < 100 {
        seq!['0', '0'] + dec_seq(n)
    } else if n < 1000 {
        seq!['0'] + dec_seq(n)
    } else {
        dec_seq(n)
    }
}

/// The character of one decimal digit, as a borrowed one-character text.
fn digit_str(d: u32) -> (s: &'static str)
    requires
        d < 10,
    ensures
        s@ == seq![digit_char(d as nat)],
{
    proof {
        reveal_strlit("0");
        reveal_strlit("1");
        reveal_strlit("2");
        reveal_strlit("3");
        reveal_strlit("4");
        reveal_strlit("5");
        reveal_strlit("6");
        reveal_strlit("7");
        reveal_strlit("8");
        reveal_strlit("9");
    }
    if d == 0 {
        assert("0"@ =~= seq![digit_char(0)]);
        "0"
    } else if d == 1 {
        assert("1"@ =~= seq![digit_char(1)]);
        "1"
    } else if d == 2 {
        assert("2"@ =~= seq![digit_char(2)]);
        "2"
    } else if d == 3 {
        assert("3"@ =~= seq![digit_char(3)]);
        "3"
    } else if d == 4 {
        assert("4"@ =~= seq![digit_char(4)]);
        "4"
    } else if d == 5 {
        assert("5"@ =~= seq![digit_char(5)]);
        "5"
    } else if d == 6 {
        assert("6"@ =~= seq![digit_char(6)]);
        "6"
    } else if d == 7 {
        assert("7"@ =~= seq![digit_char(7)]);
        "7"
    } else if d == 8 {
        assert("8"@ =~= seq![digit_char(8)]);
        "8"
    } else {
        assert("9"@ =~= seq![digit_char(9)]);
        "9"
    }
}

/// Renders `n` in base ten.
fn dec_string(n: u32) -> (s: String)
    ensures
        s@ == dec_seq(n as nat),
    decreases n,
{
    if n < 10 {
        digit_str(n).to_owned()
    } else {
        let mut s = dec_string(n / 10);
        s.append(digit_str(n % 10));
        proof {
            assert((n as nat) / 10 == (n / 10) as nat);
            assert((n as nat) % 10 == (n % 10) as nat);
            assert(dec_seq((n / 10) as nat) + seq![digit_char((n % 10) as nat)] =~= dec_seq(
                (n / 10) as nat,
            ).push(digit_char((n % 10) as nat)));
        }
        s
    }
}

/// Renders `n` zero-padded to at least two digits.
fn pad2_string(n: u32) -> (s: String)
    ensures
        s@ == pad2_seq(n as nat),
{
    if n < 10 {
        let mut s: String = "0".to_owned();
        s.append(digit_str(n));
        proof {
            reveal_strlit("0");
            assert("0"@ =~= seq!['0']);
        }
        s
    } else {
        dec_string(n)
    }
}

/// Renders `n` zero-padded to at least four digits.
fn pad4_string(n: u32) -> (s: String)
    ensures
        s@ == pad4_seq(n as nat),
{
    if n < 10 {
        let mut s: String = "000".to_owned();
        s.append(digit_str(n));
        proof {
            reveal_strlit("000");
            assert("000"@ =~= seq!['0', '0', '0']);
        }
        s
    } else if n < 100 {
        let mut s: String = "00".to_owned();
        let rest = dec_string(n);
        s.append(rest.as_str());
        proof {
            reveal_strlit("00");
            assert("00"@ =~= seq!['0', '0']);
        }
        s
    } else if n < 1000 {
        let mut s: String = "0".to_owned();
        let rest = dec_string(n);
        s.append(rest.as_str());
        proof {
            reveal_strlit("0");
            assert("0"@ =~= seq!['0']);
        }
        s
    } else {
        dec_string(n)
    }
}

/// The destination path one run composes: the assignment name and the
/// timestamp joined beneath the base path, as
/// `<base>/<assignment>D<year>-<month>-<day>T<hour>:<minute>:<second>`,
/// the date and time fields zero-padded.
pub open spec fn output_path_seq(assignment: Seq<char>, base: Seq<char>, t: Timestamp) -> Seq<
    char,
> {
    base + "/"@ + assignment + "D"@ + pad4_seq(t.year as nat) + "-"@ + pad2_seq(t.month as nat)
        + "-"@ + pad2_seq(t.day as nat) + "T"@ + pad2_seq(t.hour as nat) + ":"@ + pad2_seq(
        t.minute as nat,
    ) + ":"@ + pad2_seq(t.second as nat)
}

/// Derives the run's destination directory path.
pub struct OutputLocationPlanner {

}

impl OutputLocationPlanner {
    /// Composes the destination path: a pure function of assignment name,
    /// base path and timestamp. The caller creates the directory
    /// non-recursively and maps its failure to an [`IOError`]; the base
    /// path must already exist.
    pub fn plan(assignment_name: &str, base_path: &str, now: &Timestamp) -> (p: String)
        ensures
            p@ == output_path_seq(assignment_name@, base_path@, *now),
    {
        let mut p: String = base_path.to_owned();
        p.append("/");
        p.append(assignment_name);
        p.append("D");
        let year = pad4_string(now.year);
        p.append(year.as_str());
        p.append("-");
        let month = pad2_string(now.month);
        p.append(month.as_str());
        p.append("-");
        let day = pad2_string(now.day);
        p.append(day.as_str());
        p.append("T");
        let hour = pad2_string(now.hour);
        p.append(hour.as_str());
        p.append(":");
        let minute = pad2_string(now.minute);
        p.append(minute.as_str());
        p.append(":");
        let second = pad2_string(now.second);
        p.append(second.as_str());
        p
    }
}

proof fn lemma_pad2_len(n: nat)
    requires
        n < 100,
    ensures
        pad2_seq(n).len() == 2,
{
    reveal_with_fuel(dec_seq, 3);
}

proof fn lemma_pad2_injective(a: nat, b: nat)
    requires
        a < 100,
        b < 100,
        pad2_seq(a) == pad2_seq(b),
    ensures
        a == b,
{
    reveal_with_fuel(dec_seq, 3);
    if a < 10 && b < 10 {
        assert(pad2_seq(a)[1] == digit_char(a));
        assert(pad2_seq(b)[1] == digit_char(b));
    } else if a >= 10 && b >= 10 {
        assert(pad2_seq(a)[0] == digit_char(a / 10));
        assert(pad2_seq(a)[1] == digit_char(a % 10));
        assert(pad2_seq(b)[0] == digit_char(b / 10));
        assert(pad2_seq(b)[1] == digit_char(b % 10));
    } else if a < 10 {
        assert(pad2_seq(a)[0] == '0');
        assert(pad2_seq(b)[0] == digit_char(b / 10));
        assert(b / 10 >= 1);
        assert(false);
    } else {
        assert(pad2_seq(b)[0] == '0');
        assert(pad2_seq(a)[0] == digit_char(a / 10));
        assert(a / 10 >= 1);
        assert(false);
    }
}

/// Law: the composed name is collision-averse across time. For one
/// assignment and base path, plans at clock readings that differ in the
/// second compose different paths, so two runs in different seconds never
/// collide; only runs within one second of each other can, and those fail
/// loudly with [`IOError::AlreadyExists`].
pub proof fn lemma_plan_distinguishes_seconds(
    assignment: Seq<char>,
    base: Seq<char>,
    t1: Timestamp,
    t2: Timestamp,
)
    requires
        t1.wf(),
        t2.wf(),
        t1.year == t2.year,
        t1.month == t2.month,
        t1.day == t2.day,
        t1.hour == t2.hour,
        t1.minute == t2.minute,
        t1.second != t2.second,
    ensures
        output_path_seq(assignment, base, t1) != output_path_seq(assignment, base, t2),
{
    let pre = base + "/"@ + assignment + "D"@ + pad4_seq(t1.year as nat) + "-"@ + pad2_seq(
        t1.month as nat,
    ) + "-"@ + pad2_seq(t1.day as nat) + "T"@ + pad2_seq(t1.hour as nat) + ":"@ + pad2_seq(
        t1.minute as nat,
    ) + ":"@;
    let s1 = pad2_seq(t1.second as nat);
    let s2 = pad2_seq(t2.second as nat);
    assert(output_path_seq(assignment, base, t1) == pre + s1);
    assert(output_path_seq(assignment, base, t2) == pre + s2);
    lemma_pad2_len(t1.second as nat);
    lemma_pad2_len(t2.second as nat);
    if output_path_seq(assignment, base, t1) == output_path_seq(assignment, base, t2) {
        assert((pre + s1)[pre.len() as int] == s1[0]);
        assert((pre + s1)[pre.len() as int + 1] == s1[1]);
        assert((pre + s2)[pre.len() as int] == s2[0]);
        assert((pre + s2)[pre.len() as int + 1] == s2[1]);
        assert(s1 =~= s2);
        lemma_pad2_injective(t1.second as nat, t2.second as nat);
        assert(false);
    }
}

/// Law: planning is deterministic. Two plans for the same assignment, base
/// path and timestamp compose the identical path — which is why a second
/// run within the clock's granularity finds the directory already there and
/// fails with [`IOError::AlreadyExists`] instead of merging.
pub proof fn lemma_plan_deterministic(
    p1: Seq<char>,
    p2: Seq<char>,
    assignment: Seq<char>,
    base: Seq<char>,
    t: Timestamp,
)
    requires
        p1 == output_path_seq(assignment, base, t),
        p2 == output_path_seq(assignment, base, t),
    ensures
        p1 == p2,
{
}

} // verus!
