use crate::text::{
    chars_of, decimal, digit_char, pieces, push_decimal, push_str, rows_of, split_chars, str_eq,
    string_of,
};
use chrono::{Datelike, Timelike};
use vstd::prelude::*;

verus! {

/// Why a check cannot run on this machine.
#[derive(Debug)]
pub enum CheckError {
    /// The operating system, which is named, is not supported.
    UnsupportedOS(String),
    /// The session is not one of the supported desktop.
    NotKDE,
}

impl CheckError {
    /// The text that describes the error.
    pub open spec fn text(self) -> Seq<char> {
        match self {
            CheckError::UnsupportedOS(os) => "unsupported operating system: "@ + os@,
            CheckError::NotKDE => "KDE Plasma desktop environment not detected"@,
        }
    }

    /// The text that describes the error.
    pub fn message(&self) -> (r: String)
        ensures
            r@ == self.text(),
    {
        match self {
            CheckError::UnsupportedOS(os) => {
                let mut v = chars_of("unsupported operating system: ");
                push_str(&mut v, os.as_str());
                string_of(&v)
            },
            CheckError::NotKDE => "KDE Plasma desktop environment not detected".to_owned(),
        }
    }
}

/// Returns true if the desktop's session variable is set.
pub fn is_kde(kde_session_version: Option<&str>) -> (r: bool)
    ensures
        r == kde_session_version is Some,
{
    kde_session_version.is_some()
}

/// Checks that the machine can be worked on: its operating system is
/// Linux and the session is one of the supported desktop. The operating
/// system is looked at first.
pub fn validate_environment(os: &str, kde_session_version: Option<&str>) -> (r: Result<
    (),
    CheckError,
>)
    ensures
        r is Ok == (os@ == "linux"@ && kde_session_version is Some),
        r matches Err(e) ==> if os@ != "linux"@ {
            e matches CheckError::UnsupportedOS(name) && name@ == os@
        } else {
            e is NotKDE
        },
{
    if !str_eq(os, "linux") {
        return Err(CheckError::UnsupportedOS(os.to_owned()));
    }
    if !is_kde(kde_session_version) {
        return Err(CheckError::NotKDE);
    }
    Ok(())
}

/// What the environment says of the user's home directory.
#[derive(Debug)]
pub struct HomeEnv {
    /// The home directory that an elevating caller has handed on.
    pub sudo_user_home: Option<String>,
    /// The name of the user who elevated the process.
    pub sudo_user: Option<String>,
    /// The entry of that user in the user database, where it could be read.
    pub passwd_line: Option<String>,
    /// The home directory of the process.
    pub home: Option<String>,
    /// The home directory that the system gives where the environment gives none.
    pub fallback_home: String,
}

/// The home directory of an entry of the user database: its sixth field.
pub open spec fn passwd_home(line: Seq<char>) -> Option<Seq<char>> {
    if pieces(line, ':').len() > 5 {
        Some(pieces(line, ':')[5])
    } else {
        None
    }
}

/// The home directory of the user behind the process: the one handed on
/// by an elevating caller; else, for an elevated process, the one in the
/// user database, or `/home/` and the user's name where the database gives
/// none; else the one of the process; else the one that the system gives.
pub open spec fn home_of(env: HomeEnv) -> Seq<char> {
    match env.sudo_user_home {
        Some(h) => h@,
        None => match env.sudo_user {
            Some(user) => match env.passwd_line {
                Some(line) => match passwd_home(line@) {
                    Some(h) => h,
                    None => "/home/"@ + user@,
                },
                None => "/home/"@ + user@,
            },
            None => match env.home {
                Some(h) => h@,
                None => env.fallback_home@,
            },
        },
    }
}

fn home_in_passwd(line: &str) -> (r: Option<String>)
    ensures
        r is Some == passwd_home(line@) is Some,
        r matches Some(h) ==> passwd_home(line@) == Some(h@),
{
    let v = chars_of(line);
    let fields = split_chars(&v, ':');
    if fields.len() > 5 {
        proof {
            assert(rows_of(fields@)[5] == fields@[5]@);
        }
        Some(string_of(&fields[5]))
    } else {
        None
    }
}

/// Gets the user's home directory, even for an elevated process.
pub fn user_home(env: &HomeEnv) -> (r: String)
    ensures
        r@ == home_of(*env),
{
    match &env.sudo_user_home {
        Some(h) => h.clone(),
        None => match &env.sudo_user {
            Some(user) => {
                let from_db = match &env.passwd_line {
                    Some(line) => home_in_passwd(line.as_str()),
                    None => None,
                };
                match from_db {
                    Some(h) => h,
                    None => {
                        let mut v = chars_of("/home/");
                        push_str(&mut v, user.as_str());
                        string_of(&v)
                    },
                }
            },
            None => match &env.home {
                Some(h) => h.clone(),
                None => env.fallback_home.clone(),
            },
        },
    }
}

/// The address of the session bus of a user.
pub open spec fn bus_address(uid: Seq<char>) -> Seq<char> {
    "unix:path=/run/user/"@ + uid + "/bus"@
}

/// The runtime directory of a user.
pub open spec fn runtime_dir(uid: Seq<char>) -> Seq<char> {
    "/run/user/"@ + uid
}

/// The variables to set for the command that restarts the desktop shell:
/// the address of the session bus and the runtime directory of the user,
/// each where it is not set and the user's id is known.
pub fn restart_environment(bus_address_set: bool, runtime_dir_set: bool, uid: Option<&str>) -> (r:
    Vec<(String, String)>)
    ensures
        uid is None ==> r@.len() == 0,
        uid is Some ==> r@.len() == (if bus_address_set {
            0int
        } else {
            1int
        }) + (if runtime_dir_set {
            0int
        } else {
            1int
        }),
        uid is Some && !bus_address_set ==> r@[0].0@ == "DBUS_SESSION_BUS_ADDRESS"@ && r@[0].1@
            == bus_address(uid->0@),
        uid is Some && !runtime_dir_set ==> r@.last().0@ == "XDG_RUNTIME_DIR"@ && r@.last().1@
            == runtime_dir(uid->0@),
{
    let mut vars: Vec<(String, String)> = Vec::new();
    match uid {
        Some(u) => {
            if !bus_address_set {
                let mut v = chars_of("unix:path=/run/user/");
                push_str(&mut v, u);
                push_str(&mut v, "/bus");
                vars.push(("DBUS_SESSION_BUS_ADDRESS".to_owned(), string_of(&v)));
            }
            if !runtime_dir_set {
                let mut v = chars_of("/run/user/");
                push_str(&mut v, u);
                vars.push(("XDG_RUNTIME_DIR".to_owned(), string_of(&v)));
            }
        },
        None => {},
    }
    vars
}

/// A moment of the local time, by the calendar and the clock.
#[derive(Clone, Copy, Debug)]
pub struct LocalTime {
    pub year: i32,
    pub month: u32,
    pub day: u32,
    pub hour: u32,
    pub minute: u32,
    pub second: u32,
}

impl LocalTime {
    /// Whether the fields are those of a moment: a month of the year, a
    /// day of a month, an hour of the day, a minute and a second.
    pub open spec fn is_moment(self) -> bool {
        1 <= self.month <= 12 && 1 <= self.day <= 31 && self.hour <= 23 && self.minute <= 59
            && self.second <= 59
    }
}

/// A number written with two digits at least: a zero is put before a
/// number below ten.
pub open spec fn two_digits(n: nat) -> Seq<char> {
    if n < 10 {
        seq!['0', digit_char(n)]
    } else {
        decimal(n)
    }
}

/// A year, written with four digits at least: zeros are put before a
/// shorter year, and a sign stands before a year that is negative or longer.
pub open spec fn year_text(year: int) -> Seq<char> {
    if 0 <= year <= 9999 {
        seq![
            digit_char((year / 1000) as nat),
            digit_char(((year / 100) % 10) as nat),
            digit_char(((year / 10) % 10) as nat),
            digit_char((year % 10) as nat),
        ]
    } else if year > 9999 {
        seq!['+'] + decimal(year as nat)
    } else if year >= -9999 {
        seq![
            '-',
            digit_char(((-year) / 1000) as nat),
            digit_char((((-year) / 100) % 10) as nat),
            digit_char((((-year) / 10) % 10) as nat),
            digit_char(((-year) % 10) as nat),
        ]
    } else {
        seq!['-'] + decimal((-year) as nat)
    }
}

/// The name of the backup directory for a moment: the date and the time
/// of day, each with hyphens between its parts, and a `T` between the two.
pub open spec fn stamp_of(t: LocalTime) -> Seq<char> {
    year_text(t.year as int) + seq!['-'] + two_digits(t.month as nat) + seq!['-'] + two_digits(
        t.day as nat,
    ) + seq!['T'] + two_digits(t.hour as nat) + seq!['-'] + two_digits(t.minute as nat) + seq![
        '-',
    ] + two_digits(t.second as nat)
}

fn digit(d: u64) -> (c: char)
    requires
        d < 10,
    ensures
        c == digit_char(d as nat),
{
    if d == 0 {
        '0'
    } else if d == 1 {
        '1'
    } else if d == 2 {
        '2'
    } else if d == 3 {
        '3'
    } else if d == 4 {
        '4'
    } else if d == 5 {
        '5'
    } else if d == 6 {
        '6'
    } else if d == 7 {
        '7'
    } else if d == 8 {
        '8'
    } else {
        '9'
    }
}

fn push_two_digits(out: &mut Vec<char>, n: u32)
    ensures
        final(out)@ == old(out)@ + two_digits(n as nat),
{
    if n < 10 {
        out.push('0');
        out.push(digit(n as u64));
        proof {
            assert(out@ =~= old(out)@ + two_digits(n as nat));
        }
    } else {
        push_decimal(out, n as u64);
    }
}

fn push_four_digits(out: &mut Vec<char>, n: u64)
    requires
        n <= 9999,
    ensures
        final(out)@ == old(out)@ + seq![
            digit_char((n / 1000) as nat),
            digit_char(((n / 100) % 10) as nat),
            digit_char(((n / 10) % 10) as nat),
            digit_char((n % 10) as nat),
        ],
{
    out.push(digit(n / 1000));
    out.push(digit((n / 100) % 10));
    out.push(digit((n / 10) % 10));
    out.push(digit(n % 10));
    proof {
        assert(out@ =~= old(out)@ + seq![
            digit_char((n / 1000) as nat),
            digit_char(((n / 100) % 10) as nat),
            digit_char(((n / 10) % 10) as nat),
            digit_char((n % 10) as nat),
        ]);
    }
}

/// Writes the name of the backup directory for a moment.
pub fn format_timestamp(t: LocalTime) -> (r: String)
    ensures
        r@ == stamp_of(t),
{
    let mut out: Vec<char> = Vec::new();
    if 0 <= t.year && t.year <= 9999 {
        push_four_digits(&mut out, t.year as u64);
    } else if t.year > 9999 {
        out.push('+');
        push_decimal(&mut out, t.year as u64);
    } else if t.year >= -9999 {
        out.push('-');
        push_four_digits(&mut out, (-(t.year as i64)) as u64);
    } else {
        out.push('-');
        push_decimal(&mut out, (-(t.year as i64)) as u64);
    }
    proof {
        assert(out@ =~= year_text(t.year as int));
    }
    out.push('-');
    push_two_digits(&mut out, t.month);
    out.push('-');
    push_two_digits(&mut out, t.day);
    out.push('T');
    push_two_digits(&mut out, t.hour);
    out.push('-');
    push_two_digits(&mut out, t.minute);
    out.push('-');
    push_two_digits(&mut out, t.second);
    proof {
        assert(out@ =~= stamp_of(t));
    }
    string_of(&out)
}

/// `chrono::Local::now`, with the accessors of `Datelike` and `Timelike`:
/// the local time by the calendar and the clock. Which moment it is depends
/// on the clock; it is a month from 1 to 12, a day from 1 to 31, an hour up
/// to 23, a minute and a second up to 59.
#[verifier::external_body]
pub(crate) fn local_time() -> (t: LocalTime)
    ensures
        t.is_moment(),
{
    let now = chrono::Local::now();
    LocalTime {
        year: now.year(),
        month: now.month(),
        day: now.day(),
        hour: now.hour(),
        minute: now.minute(),
        second: now.second(),
    }
}

/// Generates the name of a backup directory from the local time.
pub fn timestamp() -> (r: String)
    ensures
        exists|t: LocalTime| t.is_moment() && r@ == #[trigger] stamp_of(t),
{
    let t = local_time();
    format_timestamp(t)
}

} // verus!
