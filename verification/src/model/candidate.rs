use vstd::prelude::*;
use vstd::string::StringExecFns;
use crate::model::category::ArtifactCategory;
use crate::model::file_record::Timestamp;
use crate::text::{decimal, digit_char, push_char, push_decimal};

verus! {

/// The Git state of the repository that encloses a path.
#[derive(Debug, Clone, PartialEq, Eq)]
pub enum GitRepoStatus {
    NotInRepo,
    Clean,
    Dirty { modified_count: usize },
    Error { message: String },
}

/// Whether a Git status allows a path to be offered for removal.
pub open spec fn status_is_safe(s: GitRepoStatus) -> bool {
    s is NotInRepo || s is Clean
}

/// The one-line summary of a Git status.
pub open spec fn status_summary(s: GitRepoStatus) -> Seq<char> {
    match s {
        GitRepoStatus::NotInRepo => "Not in Git repository"@,
        GitRepoStatus::Clean => "Git working tree clean"@,
        GitRepoStatus::Dirty { modified_count } => "Git working tree dirty ("@ + decimal(
            modified_count as nat,
        ) + " uncommitted files)"@,
        GitRepoStatus::Error { message } => "Git check error: "@ + message@,
    }
}

impl GitRepoStatus {
    /// Not in a repository, or in a clean one.
    pub fn is_safe(&self) -> (r: bool)
        ensures
            r == status_is_safe(*self),
    {
        match self {
            GitRepoStatus::NotInRepo | GitRepoStatus::Clean => true,
            GitRepoStatus::Dirty { .. } | GitRepoStatus::Error { .. } => false,
        }
    }

    /// A human-readable summary of the status.
    pub fn display_summary(&self) -> (r: String)
        ensures
            r@ == status_summary(*self),
    {
        match self {
            GitRepoStatus::NotInRepo => String::from_str("Not in Git repository"),
            GitRepoStatus::Clean => String::from_str("Git working tree clean"),
            GitRepoStatus::Dirty { modified_count } => {
                let mut s = String::from_str("Git working tree dirty (");
                push_decimal(&mut s, *modified_count as u128);
                s.append(" uncommitted files)");
                s
            },
            GitRepoStatus::Error { message } => {
                let mut s = String::from_str("Git check error: ");
                s.append(message.as_str());
                s
            },
        }
    }

    /// A field-for-field copy.
    pub fn copy(&self) -> (r: Self)
        ensures
            r == *self,
    {
        match self {
            GitRepoStatus::NotInRepo => GitRepoStatus::NotInRepo,
            GitRepoStatus::Clean => GitRepoStatus::Clean,
            GitRepoStatus::Dirty { modified_count } => GitRepoStatus::Dirty {
                modified_count: *modified_count,
            },
            GitRepoStatus::Error { message } => GitRepoStatus::Error { message: message.clone() },
        }
    }
}

pub const KB: u64 = 1024;
pub const MB: u64 = 1048576;
pub const GB: u64 = 1073741824;
pub const TB: u64 = 1099511627776;

/// 2 to the power `e`.
pub open spec fn pow2n(e: nat) -> nat
    decreases e,
{
    if e == 0 {
        1
    } else {
        2 * pow2n((e - 1) as nat)
    }
}

/// `n / d` rounded to the nearest integer, ties to the even one.
pub open spec fn round_half_even(n: nat, d: nat) -> nat {
    let q = n / d;
    let r = n % d;
    if 2 * r > d || (2 * r == d && q % 2 == 1) {
        q + 1
    } else {
        q
    }
}

/// How many low bits a 64-bit integer loses when it becomes an `f64`
/// (whose significand holds 53 bits).
pub open spec fn f64_excess_bits(b: nat) -> nat
    decreases b,
{
    if b < 0x20_0000_0000_0000 {
        0
    } else {
        1 + f64_excess_bits(b / 2)
    }
}

/// The value of `b as f64`: `b` rounded to the nearest representable value,
/// ties to even.
pub open spec fn as_f64_value(b: nat) -> nat {
    let d = pow2n(f64_excess_bits(b));
    round_half_even(b, d) * d
}

/// `b / unit`, computed in `f64` and printed with two decimals, in hundredths.
pub open spec fn hundredths(b: nat, unit: nat) -> nat {
    round_half_even(as_f64_value(b) * 100, unit)
}

/// A number of hundredths written with two decimal places.
pub open spec fn two_places(h: nat) -> Seq<char> {
    decimal(h / 100) + seq!['.', digit_char((h % 100) / 10), digit_char(h % 10)]
}

/// The human-readable size text: binary units, two decimals above one kilobyte.
pub open spec fn size_text(bytes: nat) -> Seq<char> {
    if bytes >= TB {
        two_places(hundredths(bytes, TB as nat)) + " TB"@
    } else if bytes >= GB {
        two_places(hundredths(bytes, GB as nat)) + " GB"@
    } else if bytes >= MB {
        two_places(hundredths(bytes, MB as nat)) + " MB"@
    } else if bytes >= KB {
        two_places(hundredths(bytes, KB as nat)) + " KB"@
    } else {
        decimal(bytes) + " B"@
    }
}

fn round_half_even_exec(n: u128, d: u128) -> (r: u128)
    requires
        d > 0,
        d <= 0x1_0000_0000_0000_0000,
        n < 0x1_0000_0000_0000_0000_0000,
    ensures
        r == round_half_even(n as nat, d as nat),
{
    let q = n / d;
    let r = n % d;
    if 2 * r > d || (2 * r == d && q % 2 == 1) {
        q + 1
    } else {
        q
    }
}

/// Computes `as_f64_value`.
fn f64_value(b: u64) -> (r: u128)
    ensures
        r == as_f64_value(b as nat),
        r <= 0x2_0000_0000_0000_0000,
{
    let mut t: u128 = b as u128;
    let mut d: u128 = 1;
    let ghost mut e: nat = 0;
    while t >= 0x20_0000_0000_0000
        invariant
            d == pow2n(e),
            d >= 1,
            t == b as nat / d as nat,
            f64_excess_bits(b as nat) == e + f64_excess_bits(t as nat),
            d * 0x20_0000_0000_0000 <= 2 * (b as nat) + 0x40_0000_0000_0000,
        decreases t,
    {
        proof {
            vstd::arithmetic::div_mod::lemma_div_denominator(b as int, d as int, 2);
            assert(t * d <= b) by (nonlinear_arith)
                requires t == b as nat / d as nat, d >= 1;
            assert(d * 0x20_0000_0000_0000 <= t * d) by (nonlinear_arith)
                requires t >= 0x20_0000_0000_0000, d >= 1;
        }
        t = t / 2;
        d = d * 2;
        proof {
            e = e + 1;
        }
    }
    proof {
        assert(f64_excess_bits(t as nat) == 0);
    }
    assert(d <= 0x1_0000_0000_0000) by (nonlinear_arith)
        requires d * 0x20_0000_0000_0000 <= 2 * (b as nat) + 0x40_0000_0000_0000, b < 0x1_0000_0000_0000_0000;
    let q = round_half_even_exec(b as u128, d);
    assert(b as nat / d as nat * d <= b) by (nonlinear_arith)
        requires d >= 1;
    assert(q * d <= 0x2_0000_0000_0000_0000) by (nonlinear_arith)
        requires q <= b as nat / d as nat + 1, d >= 1, d <= 0x1_0000_0000_0000, (b as nat / d as nat) * d <= b, b < 0x1_0000_0000_0000_0000;
    q * d
}

fn push_two_places(s: &mut String, h: u128)
    ensures
        final(s)@ == old(s)@ + two_places(h as nat),
{
    push_decimal(s, h / 100);
    push_char(s, '.');
    push_char(s, crate::text::digit_exec((h % 100) / 10));
    push_char(s, crate::text::digit_exec(h % 10));
    assert(final(s)@ =~= old(s)@ + two_places(h as nat));
}

/// The human-readable size of a byte count, e.g. "1.50 KB" or "512 B".
pub fn format_size(bytes: u64) -> (r: String)
    ensures
        r@ == size_text(bytes as nat),
{
    let mut s = String::new();
    if bytes >= TB {
        let v = f64_value(bytes);
        push_two_places(&mut s, round_half_even_exec(v * 100, TB as u128));
        s.append(" TB");
    } else if bytes >= GB {
        let v = f64_value(bytes);
        push_two_places(&mut s, round_half_even_exec(v * 100, GB as u128));
        s.append(" GB");
    } else if bytes >= MB {
        let v = f64_value(bytes);
        push_two_places(&mut s, round_half_even_exec(v * 100, MB as u128));
        s.append(" MB");
    } else if bytes >= KB {
        let v = f64_value(bytes);
        push_two_places(&mut s, round_half_even_exec(v * 100, KB as u128));
        s.append(" KB");
    } else {
        push_decimal(&mut s, bytes as u128);
        s.append(" B");
    }
    assert(s@ =~= size_text(bytes as nat));
    s
}


/// A directory or file offered for removal, with its size and safety verdict.
#[derive(Debug)]
pub struct ReclaimCandidate {
    pub id: String,
    pub category: ArtifactCategory,
    pub path: String,
    pub display_path: String,
    pub size_bytes: u64,
    pub human_size: String,
    pub last_modified: Option<Timestamp>,
    pub file_count: u64,
    pub is_safe: bool,
    pub safety_reason: String,
    pub git_status: GitRepoStatus,
    pub default_selected: bool,
    pub hardlink_shared_bytes: u64,
    pub has_hardlinks: bool,
    pub size_caveat: Option<String>,
}

/// Calls `uuid::Uuid::new_v4` and renders it as text.  The value is random,
/// so nothing is stated of it.
#[verifier::external_body]
fn new_candidate_id() -> (r: String) {
    uuid::Uuid::new_v4().to_string()
}

/// The caveat shown for candidates that share bytes through hard links.
pub open spec fn hardlink_caveat(shared_bytes: u64) -> Seq<char> {
    "Contains hardlinked files sharing "@ + size_text(shared_bytes as nat)
        + " with other locations (e.g. pnpm store); actual freed disk space may be less than logical size."@
}

impl ReclaimCandidate {
    /// A field-for-field copy.
    pub fn copy(&self) -> (r: Self)
        ensures
            r == *self,
    {
        ReclaimCandidate {
            id: self.id.clone(),
            category: self.category,
            path: self.path.clone(),
            display_path: self.display_path.clone(),
            size_bytes: self.size_bytes,
            human_size: self.human_size.clone(),
            last_modified: self.last_modified,
            file_count: self.file_count,
            is_safe: self.is_safe,
            safety_reason: self.safety_reason.clone(),
            git_status: self.git_status.copy(),
            default_selected: self.default_selected,
            hardlink_shared_bytes: self.hardlink_shared_bytes,
            has_hardlinks: self.has_hardlinks,
            size_caveat: match &self.size_caveat {
                Some(t) => Some(t.clone()),
                None => None,
            },
        }
    }

    /// Builds a candidate with a fresh random id.  It is selected by default
    /// exactly when it is safe, and carries no hard-link information yet.
    pub fn new(
        category: ArtifactCategory,
        path: String,
        size_bytes: u64,
        last_modified: Option<Timestamp>,
        file_count: u64,
        is_safe: bool,
        safety_reason: String,
        git_status: GitRepoStatus,
    ) -> (r: Self)
        ensures
            r.category == category,
            r.path == path,
            r.display_path@ == path@,
            r.size_bytes == size_bytes,
            r.human_size@ == size_text(size_bytes as nat),
            r.last_modified == last_modified,
            r.file_count == file_count,
            r.is_safe == is_safe,
            r.safety_reason == safety_reason,
            r.git_status == git_status,
            r.default_selected == is_safe,
            r.hardlink_shared_bytes == 0,
            !r.has_hardlinks,
            r.size_caveat is None,
    {
        let display_path = path.clone();
        let human_size = format_size(size_bytes);
        ReclaimCandidate {
            id: new_candidate_id(),
            category,
            path,
            display_path,
            size_bytes,
            human_size,
            last_modified,
            file_count,
            is_safe,
            safety_reason,
            git_status,
            default_selected: is_safe,
            hardlink_shared_bytes: 0,
            has_hardlinks: false,
            size_caveat: None,
        }
    }

    /// Records how many bytes are shared through hard links; a zero count
    /// leaves the candidate unchanged.
    pub fn with_hardlink_info(self, shared_bytes: u64) -> (r: Self)
        ensures
            shared_bytes == 0 ==> r == self,
            shared_bytes > 0 ==> {
                &&& r.hardlink_shared_bytes == shared_bytes
                &&& r.has_hardlinks
                &&& r.size_caveat matches Some(c) && c@ == hardlink_caveat(shared_bytes)
                &&& r == (ReclaimCandidate {
                    hardlink_shared_bytes: shared_bytes,
                    has_hardlinks: true,
                    size_caveat: r.size_caveat,
                    ..self
                })
            },
    {
        let mut c = self;
        if shared_bytes > 0 {
            let mut caveat = String::from_str("Contains hardlinked files sharing ");
            let size = format_size(shared_bytes);
            caveat.append(size.as_str());
            caveat.append(
                " with other locations (e.g. pnpm store); actual freed disk space may be less than logical size.",
            );
            c.hardlink_shared_bytes = shared_bytes;
            c.has_hardlinks = true;
            c.size_caveat = Some(caveat);
        }
        c
    }
}

} // verus!
