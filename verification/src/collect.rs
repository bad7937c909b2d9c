//! The identity, hardware and OS fact records a new log entry is built
//! from, and the parsing of directory distinguished-name strings into the
//! organizational-unit fields.
//!
//! The probes that fill these records (environment, directory service,
//! management instrumentation, registry) are outside collaborators; the
//! records themselves and the distinguished-name parsing are plain logic
//! and live here.

use vstd::prelude::*;
use vstd::string::{StrSliceExecFns, StringExecFns};

verus! {

/// Identity facts for one logon: who, where, and when (unix seconds of
/// the local wall-clock time).
pub struct BaseInfo {
    pub computer_name: String,
    pub username: String,
    pub now: i64,
    pub user_ou: String,
    pub full_ou: String,
    pub ws_ou: String,
}

impl BaseInfo {
    pub fn new(
        computer_name: String,
        username: String,
        now: i64,
        user_ou: String,
        full_ou: String,
        ws_ou: String,
    ) -> (r: Self)
        ensures
            r.computer_name@ == computer_name@,
            r.username@ == username@,
            r.now == now,
            r.user_ou@ == user_ou@,
            r.full_ou@ == full_ou@,
            r.ws_ou@ == ws_ou@,
    {
        Self { computer_name, username, now, user_ou, full_ou, ws_ou }
    }
}

/// Hardware facts for one logon.
pub struct HardwareInfo {
    pub make: String,
    pub model: String,
    pub uuid: String,
    pub serial_number: String,
    pub os_description: String,
}

impl HardwareInfo {
    pub fn new(
        make: String,
        model: String,
        uuid: String,
        serial_number: String,
        os_description: String,
    ) -> (r: Self)
        ensures
            r.make@ == make@,
            r.model@ == model@,
            r.uuid@ == uuid@,
            r.serial_number@ == serial_number@,
            r.os_description@ == os_description@,
    {
        Self { make, model, uuid, serial_number, os_description }
    }
}

/// Operating-system facts for one logon.
pub struct OsInfo {
    pub os_version: String,
    pub os_name: String,
}

impl OsInfo {
    pub fn new(os_version: String, os_name: String) -> (r: Self)
        ensures
            r.os_version@ == os_version@,
            r.os_name@ == os_name@,
    {
        Self { os_version, os_name }
    }
}

/// The first index of `d` in `s` at or after `from`, or `s.len()` when
/// `d` does not occur there.
pub open spec fn first_index_of(s: Seq<char>, d: char, from: int) -> int
    decreases s.len() - from,
{
    if from < 0 || from >= s.len() {
        s.len() as int
    } else if s[from] == d {
        from
    } else {
        first_index_of(s, d, from + 1)
    }
}

/// The index after the last occurrence of `d` in `s`, or 0 when `d` does
/// not occur.
pub open spec fn after_last_index_of(s: Seq<char>, d: char) -> int
    decreases s.len(),
{
    if s.len() == 0 {
        0
    } else if s[s.len() - 1] == d {
        s.len() as int
    } else {
        after_last_index_of(s.drop_last(), d)
    }
}

/// Finds the first occurrence of `d` at or after `from`.
fn find_char(s: &str, d: char, from: usize) -> (r: usize)
    requires
        from <= s@.len(),
    ensures
        r == first_index_of(s@, d, from as int),
        from <= r <= s@.len(),
        r < s@.len() ==> s@[r as int] == d,
        forall|k: int| from <= k < r ==> s@[k] != d,
{
    let n = s.unicode_len();
    let mut i: usize = from;
    while i < n
        invariant
            from <= i <= n,
            n == s@.len(),
            first_index_of(s@, d, from as int) == first_index_of(s@, d, i as int),
            forall|k: int| from <= k < i ==> s@[k] != d,
        decreases n - i,
    {
        if s.get_char(i) == d {
            return i;
        }
        i = i + 1;
    }
    n
}

/// Finds the index just past the last occurrence of `d`, or 0.
fn find_after_last(s: &str, d: char) -> (r: usize)
    ensures
        r == after_last_index_of(s@, d),
        r <= s@.len(),
{
    let n = s.unicode_len();
    let mut i: usize = n;
    proof {
        assert(s@.subrange(0, n as int) =~= s@);
    }
    while i > 0
        invariant
            i <= n,
            n == s@.len(),
            after_last_index_of(s@, d) == after_last_index_of(s@.subrange(0, i as int), d),
        decreases i,
    {
        if s.get_char(i - 1) == d {
            return i;
        }
        proof {
            assert(s@.subrange(0, i as int).drop_last() =~= s@.subrange(0, i as int - 1));
        }
        i = i - 1;
    }
    proof {
        assert(s@.subrange(0, 0) =~= Seq::<char>::empty());
    }
    0
}

/// The username held in a distinguished name: the text between the first
/// and second `=` of the leading (comma-delimited) attribute, or the
/// fallback when that attribute has no `=`.
pub open spec fn username_of_dn(dn: Seq<char>, fallback: Seq<char>) -> Seq<char> {
    let cn = dn.subrange(0, first_index_of(dn, ',', 0));
    let e1 = first_index_of(cn, '=', 0);
    if e1 == cn.len() {
        fallback
    } else {
        cn.subrange(e1 + 1, first_index_of(cn, '=', e1 + 1))
    }
}

/// Extracts the username from a directory distinguished name, falling
/// back to the plain logon name when the leading attribute has no value.
pub fn username_from_dn(dn: &str, fallback: &str) -> (r: String)
    ensures
        r@ == username_of_dn(dn@, fallback@),
{
    let c1 = find_char(dn, ',', 0);
    let cn = dn.substring_char(0, c1);
    let e1 = find_char(cn, '=', 0);
    if e1 == cn.unicode_len() {
        String::from_str(fallback)
    } else {
        let e2 = find_char(cn, '=', e1 + 1);
        String::from_str(cn.substring_char(e1 + 1, e2))
    }
}

/// The user's organizational unit held in a distinguished name: the text
/// between the first and second `_` of the second comma-delimited
/// attribute, or `Unknown` when there is no such attribute or it has no
/// underscore.
pub open spec fn user_ou_of_dn(dn: Seq<char>) -> Seq<char> {
    let c1 = first_index_of(dn, ',', 0);
    if c1 == dn.len() {
        "Unknown"@
    } else {
        let seg = dn.subrange(c1 + 1, first_index_of(dn, ',', c1 + 1));
        let u1 = first_index_of(seg, '_', 0);
        if u1 == seg.len() {
            "Unknown"@
        } else {
            seg.subrange(u1 + 1, first_index_of(seg, '_', u1 + 1))
        }
    }
}

/// Extracts the user's organizational unit from a distinguished name.
pub fn user_ou_from_dn(dn: &str) -> (r: String)
    ensures
        r@ == user_ou_of_dn(dn@),
{
    let c1 = find_char(dn, ',', 0);
    if c1 == dn.unicode_len() {
        return String::from_str("Unknown");
    }
    let c2 = find_char(dn, ',', c1 + 1);
    let seg = dn.substring_char(c1 + 1, c2);
    let u1 = find_char(seg, '_', 0);
    if u1 == seg.unicode_len() {
        String::from_str("Unknown")
    } else {
        let u2 = find_char(seg, '_', u1 + 1);
        String::from_str(seg.substring_char(u1 + 1, u2))
    }
}

/// The workstation's full organizational unit held in a distinguished
/// name: its second comma-delimited attribute, or `Unknown` when there
/// is none.
pub open spec fn full_ou_of_dn(dn: Seq<char>) -> Seq<char> {
    let c1 = first_index_of(dn, ',', 0);
    if c1 == dn.len() {
        "Unknown"@
    } else {
        dn.subrange(c1 + 1, first_index_of(dn, ',', c1 + 1))
    }
}

/// Extracts the workstation's full organizational unit from a
/// distinguished name.
pub fn full_ou_from_dn(dn: &str) -> (r: String)
    ensures
        r@ == full_ou_of_dn(dn@),
{
    let c1 = find_char(dn, ',', 0);
    if c1 == dn.unicode_len() {
        return String::from_str("Unknown");
    }
    let c2 = find_char(dn, ',', c1 + 1);
    String::from_str(dn.substring_char(c1 + 1, c2))
}

/// The short workstation OU of a full OU string: what follows its last
/// `_`, or the whole string when it has none.
pub open spec fn ws_ou_of_full(s: Seq<char>) -> Seq<char> {
    s.subrange(after_last_index_of(s, '_'), s.len() as int)
}

/// Extracts the short workstation OU from the full OU string.
pub fn ws_ou_from_full_ou(full_ou: &str) -> (r: String)
    ensures
        r@ == ws_ou_of_full(full_ou@),
{
    let u = find_after_last(full_ou, '_');
    String::from_str(full_ou.substring_char(u, full_ou.unicode_len()))
}

} // verus!
