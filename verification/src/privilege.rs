//! Start-up decisions: how the process was launched, the logon task, and
//! the elevation that the administrator setting asks for.
use vstd::prelude::*;
use crate::common::str_eq;

verus! {

/// The value of a string of decimal digits.
pub open spec fn digits_value(s: Seq<char>) -> int
    decreases s.len(),
{
    if s.len() == 0 {
        0
    } else {
        digits_value(s.drop_last()) * 10 + (s.last() as int - '0' as int)
    }
}

/// Whether every character of `s` is a decimal digit.
pub open spec fn all_digits(s: Seq<char>) -> bool {
    forall|i: int| 0 <= i < s.len() ==> '0' <= #[trigger] s[i] <= '9'
}

/// The number that `str::parse::<u32>` reads from `s`: an optional `+`,
/// then one or more decimal digits whose value fits in `u32`; nothing else.
pub open spec fn spec_parse_u32(s: Seq<char>) -> Option<u32> {
    let d = if s.len() > 0 && s[0] == '+' {
        s.drop_first()
    } else {
        s
    };
    if d.len() > 0 && all_digits(d) && digits_value(d) <= u32::MAX {
        Some(digits_value(d) as u32)
    } else {
        None
    }
}

proof fn lemma_digits_prefix(s: Seq<char>, k: int)
    requires
        all_digits(s),
        0 <= k <= s.len(),
    ensures
        all_digits(s.take(k)),
{
    assert forall|i: int| 0 <= i < s.take(k).len() implies '0' <= #[trigger] s.take(k)[i] <= '9' by {
        assert(s.take(k)[i] == s[i]);
    }
}

proof fn lemma_digits_value_nonneg(s: Seq<char>)
    requires
        all_digits(s),
    ensures
        digits_value(s) >= 0,
    decreases s.len(),
{
    if s.len() > 0 {
        lemma_digits_prefix(s, s.len() - 1);
        assert(s.take(s.len() - 1) =~= s.drop_last());
        lemma_digits_value_nonneg(s.drop_last());
        assert('0' <= s[s.len() - 1] <= '9');
    }
}

/// A string of digits is worth at least as much as any of its prefixes.
proof fn lemma_prefix_value_le(d: Seq<char>, k: int)
    requires
        all_digits(d),
        0 <= k <= d.len(),
    ensures
        digits_value(d.take(k)) <= digits_value(d),
    decreases d.len(),
{
    if k == d.len() {
        assert(d.take(k) =~= d);
    } else {
        let p = d.drop_last();
        lemma_digits_prefix(d, d.len() - 1);
        assert(d.take(d.len() - 1) =~= p);
        lemma_prefix_value_le(p, k);
        assert(p.take(k) =~= d.take(k));
        lemma_digits_value_nonneg(p);
        assert('0' <= d[d.len() - 1] <= '9');
        assert(digits_value(p) <= digits_value(p) * 10 + (d.last() as int - '0' as int)) by (nonlinear_arith)
            requires
                digits_value(p) >= 0,
                d.last() as int - '0' as int >= 0,
        ;
    }
}

/// Reads a `u32` as `str::parse::<u32>` does.
pub fn parse_u32(s: &str) -> (r: Option<u32>)
    ensures
        r == spec_parse_u32(s@),
{
    let n = s.unicode_len();
    let start: usize = if n > 0 && s.get_char(0) == '+' { 1 } else { 0 };
    let ghost d = if s@.len() > 0 && s@[0] == '+' { s@.drop_first() } else { s@ };
    assert(d =~= s@.subrange(start as int, n as int));
    if start >= n {
        return None;
    }
    let mut value: u32 = 0;
    let mut i: usize = start;
    while i < n
        invariant
            start <= i <= n,
            n == s@.len(),
            d == s@.subrange(start as int, n as int),
            d == (if s@.len() > 0 && s@[0] == '+' { s@.drop_first() } else { s@ }),
            all_digits(d.take(i - start)),
            value as int == digits_value(d.take(i - start)),
        decreases n - i,
    {
        let c = s.get_char(i);
        let ghost t = d.take(i + 1 - start);
        assert(d[i - start] == c);
        assert(t.drop_last() =~= d.take(i - start));
        assert(t.last() == c);
        if c < '0' || c > '9' {
            assert(!all_digits(d)) by {
                assert(!('0' <= d[i - start] <= '9'));
            }
            return None;
        }
        let digit = (c as u32) - ('0' as u32);
        assert(digits_value(t) == value * 10 + digit);
        assert(all_digits(t)) by {
            assert forall|k: int| 0 <= k < t.len() implies '0' <= #[trigger] t[k] <= '9' by {
                if k < t.len() - 1 {
                    assert(t[k] == d.take(i - start)[k]);
                }
            }
        }
        if value > (u32::MAX - digit) / 10 {
            proof {
                assert(value * 10 + digit > u32::MAX) by (nonlinear_arith)
                    requires
                        value > (u32::MAX - digit) / 10,
                        digit <= 9,
                ;
                if all_digits(d) {
                    lemma_prefix_value_le(d, (i + 1 - start) as int);
                    assert(digits_value(d) > u32::MAX);
                }
            }
            return None;
        }
        value = value * 10 + digit;
        i += 1;
    }
    assert(d.take(n - start) =~= d);
    Some(value)
}

/// The decimal digit for `d`, below ten.
pub open spec fn digit_char(d: nat) -> char {
    (('0' as u32) + d) as char
}

/// The decimal representation of `n`, without leading zeros.
pub open spec fn decimal(n: nat) -> Seq<char>
    decreases n,
{
    if n < 10 {
        seq![digit_char(n)]
    } else {
        decimal(n / 10).push(digit_char(n % 10))
    }
}

proof fn lemma_decimal_digits(n: nat)
    ensures
        decimal(n).len() > 0,
        all_digits(decimal(n)),
        digits_value(decimal(n)) == n,
    decreases n,
{
    if n < 10 {
        let s = decimal(n);
        assert(s.drop_last() =~= Seq::<char>::empty());
        assert(digits_value(Seq::<char>::empty()) == 0);
        assert(digit_char(n) as int - '0' as int == n);
        assert(digits_value(s) == digits_value(s.drop_last()) * 10 + (s.last() as int - '0' as int));
    } else {
        lemma_decimal_digits(n / 10);
        let s = decimal(n);
        let p = decimal(n / 10);
        assert(s.drop_last() =~= p);
        assert(digit_char((n % 10) as nat) as int - '0' as int == n % 10);
        assert forall|i: int| 0 <= i < s.len() implies '0' <= #[trigger] s[i] <= '9' by {
            if i < p.len() {
                assert(s[i] == p[i]);
            }
        }
        assert(n == (n / 10) * 10 + n % 10) by (nonlinear_arith);
        assert(s.last() == digit_char((n % 10) as nat));
        assert(digits_value(s) == digits_value(p) * 10 + (s.last() as int - '0' as int));
    }
}

/// Reading back what a number's decimal form says gives the number: for
/// every `u32`, its digits parse to it.
pub proof fn law_parse_reads_back_decimal(n: u32)
    ensures
        spec_parse_u32(decimal(n as nat)) == Some(n),
{
    lemma_decimal_digits(n as nat);
    let s = decimal(n as nat);
    assert('0' <= s[0] <= '9');
}


/// How the process was launched.
#[derive(Clone, Copy, Debug, PartialEq, Eq, Structural)]
pub enum LaunchMode {
    /// As the settings screen (`--ui`), with the main process's id when
    /// `--parent-pid` gives one.
    Ui { parent_pid: Option<u32> },
    /// As the overlay.
    Main,
}

/// Whether `i` is the first index at which `args` holds `flag`.
pub open spec fn is_first_index(args: Seq<Seq<char>>, flag: Seq<char>, i: int) -> bool {
    &&& 0 <= i < args.len()
    &&& args[i] == flag
    &&& forall|k: int| 0 <= k < i ==> args[k] != flag
}

/// The first index at which `args` holds `flag`.
pub open spec fn first_index_of(args: Seq<Seq<char>>, flag: Seq<char>) -> Option<int> {
    if exists|i: int| is_first_index(args, flag, i) {
        Some(choose|i: int| is_first_index(args, flag, i))
    } else {
        None
    }
}

/// The launch mode that the command line `args` (the program's name first)
/// asks for: the settings screen when the first argument is `--ui`, with
/// the number after the first `--parent-pid`, if there is one and it reads
/// as a `u32`.
pub open spec fn spec_launch_mode(args: Seq<Seq<char>>) -> LaunchMode {
    if args.len() > 1 && args[1] == "--ui"@ {
        LaunchMode::Ui {
            parent_pid: match first_index_of(args, "--parent-pid"@) {
                Some(p) => if p + 1 < args.len() {
                    spec_parse_u32(args[p + 1])
                } else {
                    None
                },
                None => None,
            },
        }
    } else {
        LaunchMode::Main
    }
}

/// The launch mode that the command line asks for.
pub fn parse_launch_args(args: &Vec<String>) -> (r: LaunchMode)
    ensures
        r == spec_launch_mode(args@.map_values(|s: String| s@)),
{
    let ghost a = args@.map_values(|s: String| s@);
    let is_ui = args.len() > 1 && str_eq(args[1].as_str(), "--ui");
    proof {
        if args.len() > 1 {
            assert(a[1] == args@[1]@);
        }
    }
    if !is_ui {
        return LaunchMode::Main;
    }
    let mut i: usize = 0;
    while i < args.len()
        invariant
            i <= args.len(),
            a == args@.map_values(|s: String| s@),
            a.len() > 1 && a[1] == "--ui"@,
            forall|k: int| 0 <= k < i ==> a[k] != "--parent-pid"@,
        decreases args.len() - i,
    {
        if str_eq(args[i].as_str(), "--parent-pid") {
            assert(a[i as int] == "--parent-pid"@);
            assert(is_first_index(a, "--parent-pid"@, i as int));
            let ghost w = choose|j: int| is_first_index(a, "--parent-pid"@, j);
            assert(w == i) by {
                if w < i {
                    assert(a[w] != "--parent-pid"@);
                } else if w > i {
                    assert(a[i as int] != "--parent-pid"@);
                }
            }
            assert(first_index_of(a, "--parent-pid"@) == Some(i as int));
            if i + 1 < args.len() {
                assert(a[i + 1] == args@[i + 1]@);
            }
            let parent_pid = if i + 1 < args.len() {
                parse_u32(args[i + 1].as_str())
            } else {
                None
            };
            return LaunchMode::Ui { parent_pid };
        }
        i += 1;
    }
    LaunchMode::Ui { parent_pid: None }
}

/// What is done with the logon task at start-up.
#[derive(Clone, Copy, Debug, PartialEq, Eq, Structural)]
pub enum StartupTask {
    /// Register it; `admin_required` runs it elevated.
    Register { admin_required: bool },
    /// Remove it.
    Unregister,
}

/// The logon task follows the startup setting, elevated when the
/// administrator setting is on.
pub fn startup_task(startup: bool, administrator: bool) -> (r: StartupTask)
    ensures
        r == (if startup {
            StartupTask::Register { admin_required: administrator }
        } else {
            StartupTask::Unregister
        }),
{
    if startup {
        StartupTask::Register { admin_required: administrator }
    } else {
        StartupTask::Unregister
    }
}

/// What the main process does at start about its elevation.
#[derive(Clone, Copy, Debug, PartialEq, Eq, Structural)]
pub enum AdminLaunch {
    /// It runs elevated though the setting is off: turn the setting on and
    /// save it.
    SyncConfig,
    /// It runs elevated as the setting asks.
    AlreadyAdmin,
    /// The setting asks for elevation: start an elevated instance (and end
    /// this one if that worked).
    Elevate,
    /// Neither elevated nor asked to be.
    NormalUser,
}

/// What to do about the elevation at start.
pub fn admin_launch_action(administrator: bool, elevated: bool) -> (r: AdminLaunch)
    ensures
        r == (if elevated {
            if administrator {
                AdminLaunch::AlreadyAdmin
            } else {
                AdminLaunch::SyncConfig
            }
        } else if administrator {
            AdminLaunch::Elevate
        } else {
            AdminLaunch::NormalUser
        }),
{
    if elevated {
        if !administrator {
            AdminLaunch::SyncConfig
        } else {
            AdminLaunch::AlreadyAdmin
        }
    } else if administrator {
        AdminLaunch::Elevate
    } else {
        AdminLaunch::NormalUser
    }
}

/// Whether `ShellExecuteW` started the program: it returns a value above 32
/// on success.
pub fn shell_execute_succeeded(code: usize) -> (r: bool)
    ensures
        r == (code > 32),
{
    code > 32
}

/// The administrator setting to save after the start-up elevation step,
/// if it changes: a process that already runs elevated turns it on; an
/// elevation that did not start (`elevation_code` is what `ShellExecuteW`
/// returned, 32 or less) turns it off so that the next start does not ask
/// again.
pub fn admin_setting_after(action: AdminLaunch, elevation_code: Option<usize>) -> (r: Option<bool>)
    ensures
        r == (match action {
            AdminLaunch::SyncConfig => Some(true),
            AdminLaunch::Elevate => match elevation_code {
                Some(code) => if code > 32 {
                    None
                } else {
                    Some(false)
                },
                None => None,
            },
            _ => None,
        }),
{
    match action {
        AdminLaunch::SyncConfig => Some(true),
        AdminLaunch::Elevate => match elevation_code {
            Some(code) => {
                if shell_execute_succeeded(code) {
                    None
                } else {
                    Some(false)
                }
            },
            None => None,
        },
        _ => None,
    }
}

/// The name under which the logon task is registered.
pub const STARTUP_TASK_NAME: &'static str = "InputModeViewer_Startup";

/// The logon task's execution time limit: none.
pub const TASK_TIME_LIMIT: &'static str = "PT0S";

/// The HRESULT of a task that is not registered (file not found).
pub const HRESULT_FILE_NOT_FOUND: i32 = -2147024894;

/// The outcome of removing the logon task.
#[derive(Clone, Copy, Debug, PartialEq, Eq, Structural)]
pub enum DeleteOutcome {
    Deleted,
    /// There was no task to remove, which is no error.
    NotRegistered,
    /// Any other error code.
    Failed { code: i32 },
}

/// Classifies the result of deleting the logon task: `None` for success,
/// else the error's HRESULT.
pub fn delete_task_outcome(error: Option<i32>) -> (r: DeleteOutcome)
    ensures
        r == (match error {
            None => DeleteOutcome::Deleted,
            Some(c) => if c == HRESULT_FILE_NOT_FOUND {
                DeleteOutcome::NotRegistered
            } else {
                DeleteOutcome::Failed { code: c }
            },
        }),
{
    match error {
        None => DeleteOutcome::Deleted,
        Some(c) => {
            if c == HRESULT_FILE_NOT_FOUND {
                DeleteOutcome::NotRegistered
            } else {
                DeleteOutcome::Failed { code: c }
            }
        },
    }
}

} // verus!
