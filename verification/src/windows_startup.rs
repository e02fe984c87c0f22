//! Start-at-login registration under the current user's `Run` key: the
//! command written for the executable, how an existing value is judged, and
//! how registry status codes and value sizes are read. The registry calls
//! themselves belong to the host.
use vstd::prelude::*;

use crate::textual::{decimal, push_char, push_decimal, push_str};

verus! {

pub const ERROR_SUCCESS: i32 = 0;
pub const ERROR_FILE_NOT_FOUND: i32 = 2;
pub const REG_SZ: u32 = 1;

#[derive(Debug, Clone, Copy, PartialEq, Eq, Structural)]
pub enum StartupStatus {
    Disabled,
    EnabledMatching,
    EnabledDifferent,
}

/// A failed registry operation, by its Win32 status code.
#[derive(Debug, Clone, Copy, PartialEq, Eq, Structural)]
pub struct StartupError {
    code: i32,
}

impl StartupError {
    pub closed spec fn spec_code(self) -> i32 {
        self.code
    }

    pub closed spec fn spec_new(code: i32) -> Self {
        StartupError { code }
    }

    pub fn new(code: i32) -> (r: Self)
        ensures
            r == Self::spec_new(code),
            r.spec_code() == code,
    {
        StartupError { code }
    }

    pub fn code(self) -> (r: i32)
        ensures
            r == self.spec_code(),
    {
        self.code
    }

    pub open spec fn message_text(self) -> Seq<char> {
        "Windows startup registry operation failed: "@ + if self.spec_code() < 0 {
            seq!['-'] + decimal((-self.spec_code()) as nat)
        } else {
            decimal(self.spec_code() as nat)
        }
    }

    /// The text that a failure is reported with.
    pub fn message(self) -> (r: String)
        ensures
            r@ == self.message_text(),
    {
        let mut out = String::new();
        push_str(&mut out, "Windows startup registry operation failed: ");
        let code: i64 = self.code as i64;
        if code < 0 {
            push_char(&mut out, '-');
            push_decimal(&mut out, (-code) as u64);
        } else {
            push_decimal(&mut out, code as u64);
        }
        out
    }
}

/// The value written for an executable path (as UTF-16 units): the path in
/// double quotes, then ` --background`, then the terminating zero.
pub open spec fn startup_command(executable: Seq<u16>) -> Seq<u16> {
    seq!['"' as u16] + executable + seq!['"' as u16] + background_flag() + seq![0u16]
}

pub open spec fn background_flag() -> Seq<u16> {
    seq![
        ' ' as u16,
        '-' as u16,
        '-' as u16,
        'b' as u16,
        'a' as u16,
        'c' as u16,
        'k' as u16,
        'g' as u16,
        'r' as u16,
        'o' as u16,
        'u' as u16,
        'n' as u16,
        'd' as u16,
    ]
}

pub fn command_for_executable(executable: &[u16]) -> (r: Vec<u16>)
    ensures
        r@ == startup_command(executable@),
{
    let mut command: Vec<u16> = Vec::new();
    command.push(0x22);
    let n = executable.len();
    let mut i: usize = 0;
    while i < n
        invariant
            n == executable@.len(),
            i <= n,
            command@ == seq![0x22u16] + executable@.take(i as int),
        decreases n - i,
    {
        command.push(executable[i]);
        i = i + 1;
        assert(command@ =~= seq![0x22u16] + executable@.take(i as int));
    }
    assert(executable@.take(n as int) =~= executable@);
    let flag: [u16; 14] = [0x22, 0x20, 0x2D, 0x2D, 0x62, 0x61, 0x63, 0x6B, 0x67, 0x72, 0x6F, 0x75, 0x6E, 0x64];
    let mut j: usize = 0;
    while j < 14
        invariant
            j <= 14,
            flag@ == seq![
                0x22u16,
                0x20u16,
                0x2Du16,
                0x2Du16,
                0x62u16,
                0x61u16,
                0x63u16,
                0x6Bu16,
                0x67u16,
                0x72u16,
                0x6Fu16,
                0x75u16,
                0x6Eu16,
                0x64u16,
            ],
            command@ == seq![0x22u16] + executable@ + flag@.take(j as int),
        decreases 14 - j,
    {
        command.push(flag[j]);
        j = j + 1;
        assert(command@ =~= seq![0x22u16] + executable@ + flag@.take(j as int));
    }
    command.push(0);
    assert(flag@.take(14) =~= flag@);
    assert(command@ =~= startup_command(executable@));
    command
}

/// Whether an existing value (without its terminator) is the command for
/// this executable.
pub open spec fn status_of(existing: Option<Seq<u16>>, executable: Seq<u16>) -> StartupStatus {
    match existing {
        None => StartupStatus::Disabled,
        Some(v) => if v + seq![0u16] == startup_command(executable) {
            StartupStatus::EnabledMatching
        } else {
            StartupStatus::EnabledDifferent
        },
    }
}

/// Whether `v` followed by a terminating zero is exactly `command`.
fn terminated_equals(v: &[u16], command: &Vec<u16>) -> (r: bool)
    ensures
        r == (v@ + seq![0u16] == command@),
{
    let n = v.len();
    let m = command.len();
    if m == 0 || n != m - 1 {
        assert((v@ + seq![0u16]).len() != command@.len());
        return false;
    }
    if command[n] != 0 {
        assert((v@ + seq![0u16])[n as int] != command@[n as int]);
        return false;
    }
    let mut i: usize = 0;
    while i < n
        invariant
            n == v@.len(),
            n + 1 == command@.len(),
            command@[n as int] == 0,
            i <= n,
            forall|k: int| 0 <= k < i ==> v@[k] == command@[k],
        decreases n - i,
    {
        if v[i] != command[i] {
            assert((v@ + seq![0u16])[i as int] != command@[i as int]);
            return false;
        }
        i = i + 1;
    }
    assert(v@ + seq![0u16] =~= command@);
    true
}

pub fn startup_status(existing: Option<&[u16]>, executable: &[u16]) -> (r: StartupStatus)
    ensures
        r == status_of(
            match existing {
                Some(v) => Some(v@),
                None => None,
            },
            executable@,
        ),
{
    match existing {
        None => StartupStatus::Disabled,
        Some(v) => {
            let command = command_for_executable(executable);
            if terminated_equals(v, &command) {
                StartupStatus::EnabledMatching
            } else {
                StartupStatus::EnabledDifferent
            }
        },
    }
}

pub open spec fn status_check(status: i32) -> Result<(), StartupError> {
    if status == ERROR_SUCCESS {
        Ok(())
    } else {
        Err(StartupError::spec_new(status))
    }
}

/// A registry status: success, or the failure it names.
pub fn check(status: i32) -> (r: Result<(), StartupError>)
    ensures
        r == status_check(status),
{
    if status == ERROR_SUCCESS {
        Ok(())
    } else {
        Err(StartupError { code: status })
    }
}

/// A status where a missing key or value means "nothing there": `Ok(false)`
/// for not found, `Ok(true)` for success, the failure otherwise.
pub fn found_check(status: i32) -> (r: Result<bool, StartupError>)
    ensures
        status == ERROR_FILE_NOT_FOUND ==> r == Ok::<bool, StartupError>(false),
        status != ERROR_FILE_NOT_FOUND ==> r == match status_check(status) {
            Ok(_) => Ok::<bool, StartupError>(true),
            Err(e) => Err(e),
        },
{
    if status == ERROR_FILE_NOT_FOUND {
        return Ok(false);
    }
    match check(status) {
        Ok(_) => Ok(true),
        Err(e) => Err(e),
    }
}

/// How many UTF-16 units a queried value holds: only a non-empty string value
/// of whole units is read; anything else counts as no value.
pub fn string_value_units(value_type: u32, bytes: u32) -> (r: Option<usize>)
    ensures
        r == (if value_type != REG_SZ || bytes == 0 || bytes % 2 != 0 {
            None
        } else {
            Some((bytes / 2) as usize)
        }),
{
    if value_type != REG_SZ || bytes == 0 || bytes % 2 != 0 {
        None
    } else {
        Some((bytes / 2) as usize)
    }
}

/// A read value without its terminating zero, when it has one.
pub fn strip_terminator(buffer: &mut Vec<u16>)
    ensures
        old(buffer)@.len() > 0 && old(buffer)@.last() == 0 ==> final(buffer)@ == old(buffer)@.drop_last(),
        !(old(buffer)@.len() > 0 && old(buffer)@.last() == 0) ==> final(buffer)@ == old(buffer)@,
{
    let n = buffer.len();
    if n > 0 && buffer[n - 1] == 0 {
        buffer.pop();
    }
}

/// The byte length of a value of `units` UTF-16 units, which the registry
/// takes as a `u32`; a value too long for that is refused with code -1.
pub fn value_byte_len(units: usize) -> (r: Result<u32, StartupError>)
    ensures
        units * 2 <= u32::MAX ==> r == Ok::<u32, StartupError>((units * 2) as u32),
        units * 2 > u32::MAX ==> r == Err::<u32, StartupError>(StartupError::spec_new(-1i32)),
{
    if units > 0x7FFF_FFFF {
        return Err(StartupError { code: -1 });
    }
    Ok((units * 2) as u32)
}

/// The value written when start-at-login is enabled reads back, without its
/// terminator, as enabled for the same executable.
pub proof fn law_enabled_value_reads_back_matching(executable: Seq<u16>)
    ensures
        status_of(Some(startup_command(executable).drop_last()), executable)
            == StartupStatus::EnabledMatching,
{
    assert(startup_command(executable).drop_last() + seq![0u16] =~= startup_command(executable));
}

} // verus!
