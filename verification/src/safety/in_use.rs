use vstd::prelude::*;
use vstd::string::StringExecFns;
use crate::text::{decimal, push_decimal};

verus! {

/// Tells whether a path is held open by another process.
pub struct InUseChecker;

/// Lock files probed inside a directory, in order.
pub open spec fn lock_probe_names() -> Seq<Seq<char>> {
    seq![".lock"@, ".package-cache"@, ".cargo-lock"@]
}

/// The names that are not empty, in order.
pub open spec fn nonempty_names(ns: Seq<String>) -> Seq<Seq<char>>
    decreases ns.len(),
{
    if ns.len() == 0 {
        Seq::empty()
    } else if ns.last()@.len() > 0 {
        nonempty_names(ns.drop_last()).push(ns.last()@)
    } else {
        nonempty_names(ns.drop_last())
    }
}

/// The texts joined with ", " between them.
pub open spec fn comma_joined(ts: Seq<Seq<char>>) -> Seq<char>
    decreases ts.len(),
{
    if ts.len() == 0 {
        Seq::empty()
    } else if ts.len() == 1 {
        ts[0]
    } else {
        comma_joined(ts.drop_last()) + ", "@ + ts.last()
    }
}

/// The reason given when the Restart Manager reports processes holding the
/// path: their names when any is known, otherwise their number.
pub open spec fn holders_text(names: Seq<String>, process_count: u32) -> Seq<char> {
    if nonempty_names(names).len() > 0 {
        "Active file locks held by: "@ + comma_joined(nonempty_names(names))
    } else {
        "Active file locks held by "@ + decimal(process_count as nat) + " running process(es)"@
    }
}

/// The UTF-16 units before the first NUL (all of them when there is none).
pub open spec fn units_before_nul(units: Seq<u16>) -> Seq<u16> {
    if exists|i: int| 0 <= i < units.len() && units[i] == 0 {
        units.take(choose|i: int| 0 <= i < units.len() && units[i] == 0 && forall|j: int| 0 <= j < i ==> units[j] != 0)
    } else {
        units
    }
}

impl InUseChecker {
    /// The reason for a path that the Restart Manager reports as held by
    /// `process_count` processes with the given application names.
    pub fn holders_verdict(app_names: &Vec<String>, process_count: u32) -> (r: String)
        ensures
            r@ == holders_text(app_names@, process_count),
    {
        let mut joined = String::new();
        let mut any = false;
        let mut i: usize = 0;
        while i < app_names.len()
            invariant
                i <= app_names.len(),
                any == (nonempty_names(app_names@.take(i as int)).len() > 0),
                joined@ == comma_joined(nonempty_names(app_names@.take(i as int))),
            decreases app_names.len() - i,
        {
            assert(app_names@.take(i + 1).drop_last() =~= app_names@.take(i as int));
            let name = &app_names[i];
            let ghost prev = nonempty_names(app_names@.take(i as int));
            let ghost before = joined@;
            if !name.as_str().is_empty() {
                if any {
                    joined.append(", ");
                }
                joined.append(name.as_str());
                any = true;
                proof {
                    let next = prev.push(name@);
                    assert(next.drop_last() =~= prev);
                    if prev.len() == 0 {
                        assert(joined@ =~= name@);
                    } else {
                        assert(joined@ =~= before + ", "@ + name@);
                    }
                }
            }
            i = i + 1;
        }
        assert(app_names@.take(app_names.len() as int) =~= app_names@);
        if any {
            let mut s = String::from_str("Active file locks held by: ");
            s.append(joined.as_str());
            s
        } else {
            let mut s = String::from_str("Active file locks held by ");
            push_decimal(&mut s, process_count as u128);
            s.append(" running process(es)");
            s
        }
    }

    /// The units of a fixed-size UTF-16 name buffer before its first NUL.
    pub fn name_units(units: &[u16]) -> (r: Vec<u16>)
        ensures
            r@ == units_before_nul(units@),
    {
        let mut out: Vec<u16> = Vec::new();
        let mut i: usize = 0;
        while i < units.len()
            invariant
                i <= units.len(),
                out@ == units@.take(i as int),
                forall|j: int| 0 <= j < i ==> units@[j] != 0,
            decreases units.len() - i,
        {
            if units[i] == 0 {
                proof {
                    let w = choose|k: int| 0 <= k < units@.len() && units@[k] == 0 && forall|j: int| 0 <= j < k ==> units@[j] != 0;
                    assert(0 <= i < units@.len() && units@[i as int] == 0 && forall|j: int| 0 <= j < i ==> units@[j] != 0);
                    assert(w == i) by {
                        if w < i {
                            assert(units@[w] != 0);
                        }
                        if w > i {
                            assert(units@[i as int] != 0);
                        }
                    }
                }
                return out;
            }
            out.push(units[i]);
            assert(units@.take(i + 1) =~= units@.take(i as int).push(units@[i as int]));
            i = i + 1;
        }
        assert(units@.take(units.len() as int) =~= units@);
        out
    }

    /// Why a path counts as held open elsewhere: the reason from the Windows
    /// session query when it reported holders, otherwise the lock probe's reason.
    pub fn is_locked(restart_manager: Option<String>, probe: Option<String>) -> (r: Option<String>)
        ensures
            r == (if restart_manager is Some { restart_manager } else { probe }),
    {
        match restart_manager {
            Some(reason) => Some(reason),
            None => probe,
        }
    }

    /// The verdict on a file that was opened for reading and writing:
    /// a permission refusal means another process holds it.
    pub fn file_probe_verdict(permission_denied: bool) -> (r: Option<String>)
        ensures
            permission_denied ==> (r matches Some(s) && s@ == "File is currently open or locked by another process"@),
            !permission_denied ==> r is None,
    {
        if permission_denied {
            Some(String::from_str("File is currently open or locked by another process"))
        } else {
            None
        }
    }

    /// The names of the lock files probed inside a directory, in order.
    pub fn lock_probe_names() -> (r: Vec<&'static str>)
        ensures
            r@.len() == 3,
            r@[0]@ == ".lock"@,
            r@[1]@ == ".package-cache"@,
            r@[2]@ == ".cargo-lock"@,
    {
        let mut r: Vec<&'static str> = Vec::new();
        r.push(".lock");
        r.push(".package-cache");
        r.push(".cargo-lock");
        r
    }

    /// The verdict on an existing lock file that was opened for reading and
    /// writing: a permission refusal means another process holds it.
    pub fn lock_file_verdict(file_name: &str, permission_denied: bool) -> (r: Option<String>)
        ensures
            permission_denied ==> (r matches Some(s) && s@ == "Lock file '"@ + file_name@
                + "' is active in another running process"@),
            !permission_denied ==> r is None,
    {
        if permission_denied {
            let mut s = String::from_str("Lock file '");
            s.append(file_name);
            s.append("' is active in another running process");
            Some(s)
        } else {
            None
        }
    }
}

} // verus!
