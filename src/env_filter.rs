//! The fixed denylist of environment variables that an extension may not
//! override, and the ASCII case-insensitive match against it.

use vstd::prelude::*;
use vstd::string::*;

verus! {

pub open spec fn is_ascii_upper(c: char) -> bool {
    'A' <= c && c <= 'Z'
}

/// Two characters are equal once ASCII letters are folded to lower case;
/// any other character must match exactly.
pub open spec fn char_eq_ignore_ascii_case(a: char, b: char) -> bool {
    ||| a == b
    ||| (is_ascii_upper(a) && a as u32 + 32 == b as u32)
    ||| (is_ascii_upper(b) && b as u32 + 32 == a as u32)
}

/// Two names are equal up to ASCII case folding.
pub open spec fn eq_ignore_ascii_case(a: Seq<char>, b: Seq<char>) -> bool {
    &&& a.len() == b.len()
    &&& forall|i: int| 0 <= i < a.len() ==> char_eq_ignore_ascii_case(#[trigger] a[i], b[i])
}

/// The variables that an extension may not override, grouped by hazard:
/// executable lookup, dynamic linker injection, interpreter and runtime
/// hijacking, and OS session or profile redirection.
pub open spec fn denylist_strs() -> Seq<&'static str> {
    seq![
        "PATH", "PATHEXT", "SystemRoot", "windir",
        "LD_LIBRARY_PATH", "LD_PRELOAD", "LD_AUDIT", "LD_DEBUG", "LD_BIND_NOW",
        "LD_ASSUME_KERNEL", "DYLD_LIBRARY_PATH", "DYLD_INSERT_LIBRARIES", "DYLD_FRAMEWORK_PATH",
        "PYTHONPATH", "PYTHONHOME", "NODE_OPTIONS", "RUBYOPT", "GEM_PATH", "GEM_HOME",
        "CLASSPATH", "GO111MODULE", "GOROOT",
        "APPINIT_DLLS", "SESSIONNAME", "ComSpec", "TEMP", "TMP", "LOCALAPPDATA",
        "USERPROFILE", "HOMEDRIVE", "HOMEPATH",
    ]
}

/// The denylist as character sequences.
pub open spec fn denylist() -> Seq<Seq<char>> {
    denylist_strs().map_values(|s: &'static str| s@)
}

/// A name is disallowed when it equals some denylist entry up to ASCII case.
pub open spec fn is_disallowed_name(k: Seq<char>) -> bool {
    exists|i: int| 0 <= i < denylist().len() && eq_ignore_ascii_case(#[trigger] denylist()[i], k)
}

pub(crate) fn disallowed_keys() -> (r: Vec<&'static str>)
    ensures
        r@ == denylist_strs(),
{
    let r = vec![
        "PATH", "PATHEXT", "SystemRoot", "windir",
        "LD_LIBRARY_PATH", "LD_PRELOAD", "LD_AUDIT", "LD_DEBUG", "LD_BIND_NOW",
        "LD_ASSUME_KERNEL", "DYLD_LIBRARY_PATH", "DYLD_INSERT_LIBRARIES", "DYLD_FRAMEWORK_PATH",
        "PYTHONPATH", "PYTHONHOME", "NODE_OPTIONS", "RUBYOPT", "GEM_PATH", "GEM_HOME",
        "CLASSPATH", "GO111MODULE", "GOROOT",
        "APPINIT_DLLS", "SESSIONNAME", "ComSpec", "TEMP", "TMP", "LOCALAPPDATA",
        "USERPROFILE", "HOMEDRIVE", "HOMEPATH",
    ];
    assert(r@ =~= denylist_strs());
    r
}

fn char_eq_ignore_ascii(a: char, b: char) -> (r: bool)
    ensures
        r == char_eq_ignore_ascii_case(a, b),
{
    let x = a as u32;
    let y = b as u32;
    x == y || ('A' <= a && a <= 'Z' && x + 32 == y) || ('A' <= b && b <= 'Z' && y + 32 == x)
}

/// Compares two strings up to ASCII case, as `str::eq_ignore_ascii_case` does.
pub fn str_eq_ignore_ascii_case(a: &str, b: &str) -> (r: bool)
    ensures
        r == eq_ignore_ascii_case(a@, b@),
{
    let n = a.unicode_len();
    if n != b.unicode_len() {
        return false;
    }
    let mut i: usize = 0;
    while i < n
        invariant
            n == a@.len() == b@.len(),
            i <= n,
            forall|j: int| 0 <= j < i ==> char_eq_ignore_ascii_case(#[trigger] a@[j], b@[j]),
        decreases n - i,
    {
        if !char_eq_ignore_ascii(a.get_char(i), b.get_char(i)) {
            return false;
        }
        i = i + 1;
    }
    true
}

/// ASCII case-insensitive equality of characters is transitive.
proof fn lemma_char_eq_ignore_ascii_case_trans(a: char, b: char, c: char)
    requires
        char_eq_ignore_ascii_case(a, b),
        char_eq_ignore_ascii_case(b, c),
    ensures
        char_eq_ignore_ascii_case(a, c),
{
}

/// A name that equals a denylisted name up to ASCII case is itself
/// denylisted: the denylist cannot be dodged by changing case.
pub proof fn lemma_disallowed_in_any_case(d: Seq<char>, k: Seq<char>)
    requires
        is_disallowed_name(d),
        eq_ignore_ascii_case(d, k),
    ensures
        is_disallowed_name(k),
{
    let i = choose|i: int| 0 <= i < denylist().len() && eq_ignore_ascii_case(#[trigger] denylist()[i], d);
    let e = denylist()[i];
    assert forall|j: int| 0 <= j < e.len() implies char_eq_ignore_ascii_case(#[trigger] e[j], k[j]) by {
        lemma_char_eq_ignore_ascii_case_trans(e[j], d[j], k[j]);
    }
    assert(eq_ignore_ascii_case(denylist()[i], k));
}

/// `LD_PRELOAD`, written in any case, is denylisted.
pub proof fn lemma_ld_preload_disallowed(k: Seq<char>)
    requires
        eq_ignore_ascii_case("LD_PRELOAD"@, k),
    ensures
        is_disallowed_name(k),
{
    assert(denylist()[5] == "LD_PRELOAD"@);
}

} // verus!
