use heck::ToSnakeCase;
use vstd::prelude::*;
use vstd::string::*;

use crate::paths::{join, join_path, SteamPaths};

verus! {

/// What heck's snake-case conversion makes of a text.
pub uninterp spec fn snake_case_of(s: Seq<char>) -> Seq<char>;

/// Relies on heck's `ToSnakeCase for str`: the result is a function of the
/// text alone.
#[verifier::external_body]
fn to_snake_case(s: &String) -> (r: String)
    ensures
        r@ == snake_case_of(s@),
{
    s.as_str().to_snake_case()
}

/// Relies on std's `FromIterator<&char> for String`: the string holds the
/// characters in order.
#[verifier::external_body]
pub(crate) fn string_from_chars(v: &Vec<char>) -> (r: String)
    ensures
        r@ == v@,
{
    v.iter().collect()
}

/// The literal start of every identifier of a vendor-shipped tool.
pub open spec fn vendor_prefix() -> Seq<char> {
    seq!['p', 'r', 'o', 't', 'o', 'n', '_']
}

pub open spec fn is_digit(c: char) -> bool {
    '0' <= c && c <= '9'
}

pub open spec fn is_lower(c: char) -> bool {
    'a' <= c && c <= 'z'
}

/// A decimal digit when `digits` holds, a lower-case letter otherwise.
pub open spec fn in_class(c: char, digits: bool) -> bool {
    if digits {
        is_digit(c)
    } else {
        is_lower(c)
    }
}

/// The length of the longest run of characters of one class that starts at `i`.
pub open spec fn run_len(s: Seq<char>, i: int, digits: bool) -> nat
    decreases s.len() - i,
{
    if 0 <= i < s.len() && in_class(s[i], digits) {
        1 + run_len(s, i + 1, digits)
    } else {
        0
    }
}

/// The second version number after the first one ends at `j`: the digits that
/// follow one separator, unless they are all zero (then nothing).
pub open spec fn minor_suffix(s: Seq<char>, j: int) -> Seq<char> {
    let m = run_len(s, j + 1, true);
    if 0 <= j < s.len() && s[j] == '_' && m > 0 && exists|k: int|
        j + 1 <= k < j + 1 + m && s[k] != '0' {
        s.subrange(j + 1, j + 1 + m)
    } else {
        seq![]
    }
}

/// The vendor's identifier for a snake-cased display name, where it follows
/// the vendor's convention: `proton_` and then either a word
/// (`proton_experimental`), or a major version with the minor version glued
/// on unless it is zero (`proton_10_0` gives `proton_10`, `proton_4_11` gives
/// `proton_411`). Whatever follows (`_beta`) is dropped.
pub open spec fn vendor_slug(s: Seq<char>) -> Option<Seq<char>> {
    let p = vendor_prefix();
    if s.len() < 7 || s.subrange(0, 7) != p {
        None
    } else {
        let w: int = run_len(s, 7, false) as int;
        let d: int = run_len(s, 7, true) as int;
        if w > 0 {
            Some(p + s.subrange(7, 7 + w))
        } else if d > 0 {
            Some(p + s.subrange(7, 7 + d) + minor_suffix(s, 7 + d))
        } else {
            None
        }
    }
}

/// The identifier that the platform expects for a tool of this name.
pub open spec fn internal_name_of(name: Seq<char>, builtin: bool) -> Seq<char> {
    if !builtin {
        name
    } else {
        match vendor_slug(snake_case_of(name)) {
            Some(id) => id,
            None => snake_case_of(name),
        }
    }
}

/// The outcome of deriving an internal identifier: one that follows the known
/// convention, or a best guess where the convention was not recognised.
#[derive(Debug)]
pub enum Derivation {
    Derived(String),
    Fallback(String),
}

impl Derivation {
    pub open spec fn text(&self) -> Seq<char> {
        match self {
            Derivation::Derived(s) => s@,
            Derivation::Fallback(s) => s@,
        }
    }

    /// The identifier, confident or not.
    pub fn identifier(&self) -> (r: &String)
        ensures
            r@ == self.text(),
    {
        match self {
            Derivation::Derived(s) => s,
            Derivation::Fallback(s) => s,
        }
    }

    /// Whether the identifier is only a best guess.
    pub fn is_fallback(&self) -> (r: bool)
        ensures
            r == (self is Fallback),
    {
        match self {
            Derivation::Derived(_) => false,
            Derivation::Fallback(_) => true,
        }
    }
}

proof fn lemma_run_len(s: Seq<char>, i: int, j: int, digits: bool)
    requires
        0 <= i <= j <= s.len(),
        forall|k: int| i <= k < j ==> in_class(#[trigger] s[k], digits),
        j == s.len() || !in_class(s[j], digits),
    ensures
        run_len(s, i, digits) == j - i,
    decreases j - i,
{
    if i < j {
        lemma_run_len(s, i + 1, j, digits);
    }
}

fn char_in_class(c: char, digits: bool) -> (r: bool)
    ensures
        r == in_class(c, digits),
{
    if digits {
        '0' <= c && c <= '9'
    } else {
        'a' <= c && c <= 'z'
    }
}

/// The end of the run of one class of characters that starts at `start`.
fn scan_run(s: &str, start: usize, digits: bool) -> (end: usize)
    requires
        start <= s@.len(),
    ensures
        end == start + run_len(s@, start as int, digits),
        end <= s@.len(),
{
    let n = s.unicode_len();
    let mut j: usize = start;
    while j < n && char_in_class(s.get_char(j), digits)
        invariant
            start <= j <= n,
            n == s@.len(),
            forall|k: int| start <= k < j ==> in_class(#[trigger] s@[k], digits),
        decreases n - j,
    {
        j += 1;
    }
    proof {
        lemma_run_len(s@, start as int, j as int, digits);
    }
    j
}

/// Appends the characters of `s` from `from` to `to` to `out`.
fn push_range(out: &mut Vec<char>, s: &str, from: usize, to: usize)
    requires
        from <= to <= s@.len(),
    ensures
        final(out)@ == old(out)@ + s@.subrange(from as int, to as int),
{
    let mut k: usize = from;
    while k < to
        invariant
            from <= k <= to,
            to <= s@.len(),
            out@ == old(out)@ + s@.subrange(from as int, k as int),
        decreases to - k,
    {
        out.push(s.get_char(k));
        k += 1;
        assert(out@ =~= old(out)@ + s@.subrange(from as int, k as int));
    }
}

/// Whether some character from `from` to `to` is not `'0'`.
fn has_nonzero(s: &str, from: usize, to: usize) -> (r: bool)
    requires
        from <= to <= s@.len(),
    ensures
        r == exists|k: int| from <= k < to && s@[k] != '0',
{
    let mut k: usize = from;
    while k < to
        invariant
            from <= k <= to,
            to <= s@.len(),
            forall|i: int| from <= i < k ==> s@[i] == '0',
        decreases to - k,
    {
        if s.get_char(k) != '0' {
            return true;
        }
        k += 1;
    }
    false
}

/// Derives the vendor's identifier from a snake-cased display name. Where the
/// text does not follow the convention, the text itself comes back as a
/// fallback: this never fails.
pub fn derive_internal_name(snake: &String) -> (r: Derivation)
    ensures
        match vendor_slug(snake@) {
            Some(id) => r is Derived && r.text() == id,
            None => r is Fallback && r.text() == snake@,
        },
{
    let s = snake.as_str();
    let n = s.unicode_len();
    let prefix = "proton_";
    proof {
        reveal_strlit("proton_");
    }
    if n < 7 {
        return Derivation::Fallback(snake.clone());
    }
    let mut i: usize = 0;
    while i < 7
        invariant
            i <= 7 <= n,
            n == s@.len(),
            s@ == snake@,
            prefix@ == vendor_prefix(),
            s@.subrange(0, i as int) == vendor_prefix().subrange(0, i as int),
        decreases 7 - i,
    {
        if s.get_char(i) != prefix.get_char(i) {
            assert(s@.subrange(0, 7)[i as int] != vendor_prefix()[i as int]);
            return Derivation::Fallback(snake.clone());
        }
        i += 1;
        assert(s@.subrange(0, i as int) =~= vendor_prefix().subrange(0, i as int));
    }
    assert(vendor_prefix().subrange(0, 7) =~= vendor_prefix());
    let w = scan_run(s, 7, false);
    let d = scan_run(s, 7, true);
    let mut out: Vec<char> = Vec::new();
    push_range(&mut out, s, 0, 7);
    if w > 7 {
        push_range(&mut out, s, 7, w);
    } else if d > 7 {
        push_range(&mut out, s, 7, d);
        if d < n && s.get_char(d) == '_' {
            let m = scan_run(s, d + 1, true);
            if m > d + 1 && has_nonzero(s, d + 1, m) {
                push_range(&mut out, s, d + 1, m);
            }
        }
    } else {
        return Derivation::Fallback(snake.clone());
    }
    let r = string_from_chars(&out);
    assert(r@ =~= vendor_slug(snake@).unwrap());
    Derivation::Derived(r)
}

/// A name found only in the user's compatibility tools directory resolves to a
/// user-installed tool, which the platform selects by that name unchanged.
pub proof fn lemma_user_only_resolves_verbatim(name: Seq<char>, paths: SteamPaths)
    ensures
        resolution(name, paths, false, true) is Some,
        !resolution(name, paths, false, true)->Some_0.builtin,
        internal_name_of(
            resolution(name, paths, false, true)->Some_0.name,
            resolution(name, paths, false, true)->Some_0.builtin,
        ) == name,
{
}

/// A name found only in the vendor's directory resolves to a vendor-shipped tool.
pub proof fn lemma_vendor_only_is_builtin(name: Seq<char>, paths: SteamPaths)
    ensures
        resolution(name, paths, true, false) is Some,
        resolution(name, paths, true, false)->Some_0.builtin,
{
}

/// A name found in both locations resolves to the user-installed tool.
pub proof fn lemma_user_install_wins(name: Seq<char>, paths: SteamPaths)
    ensures
        resolution(name, paths, true, true) is Some,
        !resolution(name, paths, true, true)->Some_0.builtin,
        resolution(name, paths, true, true)->Some_0.path == join(paths.compat_tools@, name),
{
}

/// A name found in neither location does not resolve.
pub proof fn lemma_missing_does_not_resolve(name: Seq<char>, paths: SteamPaths)
    ensures
        resolution(name, paths, false, false) is None,
{
}

/// An identifier that is already the vendor's prefix followed by one word of
/// lower-case letters is derived as itself.
pub proof fn lemma_word_slug_is_fixed(word: Seq<char>)
    requires
        word.len() > 0,
        forall|k: int| 0 <= k < word.len() ==> is_lower(#[trigger] word[k]),
    ensures
        vendor_slug(vendor_prefix() + word) == Some(vendor_prefix() + word),
{
    let s = vendor_prefix() + word;
    assert(s.subrange(0, 7) =~= vendor_prefix());
    assert forall|k: int| 7 <= k < s.len() implies in_class(#[trigger] s[k], false) by {
        assert(s[k] == word[k - 7]);
    }
    lemma_run_len(s, 7, s.len() as int, false);
    assert(s.subrange(7, s.len() as int) =~= word);
    assert(vendor_prefix() + s.subrange(7, s.len() as int) =~= s);
}

/// A text that does not start with the vendor's prefix follows no known
/// convention: its derivation is the fallback.
pub proof fn lemma_foreign_text_falls_back(s: Seq<char>)
    requires
        !(s.len() >= 7 && s.subrange(0, 7) == vendor_prefix()),
    ensures
        vendor_slug(s) is None,
{
}

/// One compatibility tool, found on disk under its display name.
#[derive(Debug)]
pub struct SteamCompat {
    pub name: String,
    pub path: String,
    pub builtin: bool,
}

/// What a resolved tool holds.
pub struct CompatView {
    pub name: Seq<char>,
    pub path: Seq<char>,
    pub builtin: bool,
}

/// Where a name resolves to, given in which of the two locations a folder of
/// that name exists: the user-installed one wins over the vendor one.
pub open spec fn resolution(
    name: Seq<char>,
    paths: SteamPaths,
    in_common: bool,
    in_compat_tools: bool,
) -> Option<CompatView> {
    if in_compat_tools {
        Some(CompatView { name, path: join(paths.compat_tools@, name), builtin: false })
    } else if in_common {
        Some(CompatView { name, path: join(paths.common@, name), builtin: true })
    } else {
        None
    }
}

/// A requested tool that exists in neither location.
#[derive(Debug)]
pub struct ResolutionError {
    pub name: String,
}

impl SteamCompat {
    pub open spec fn view(&self) -> CompatView {
        CompatView { name: self.name@, path: self.path@, builtin: self.builtin }
    }

    /// Resolves a display name, given whether a folder of that name exists
    /// under the vendor's common applications directory (`in_common`) and
    /// under the user's compatibility tools directory (`in_compat_tools`).
    pub fn from_name(
        name: &String,
        paths: &SteamPaths,
        in_common: bool,
        in_compat_tools: bool,
    ) -> (r: Option<SteamCompat>)
        ensures
            match resolution(name@, *paths, in_common, in_compat_tools) {
                Some(v) => r is Some && r->Some_0.view() == v,
                None => r is None,
            },
    {
        if in_compat_tools {
            Some(
                SteamCompat {
                    name: name.clone(),
                    path: join_path(&paths.compat_tools, name.as_str()),
                    builtin: false,
                },
            )
        } else if in_common {
            Some(
                SteamCompat {
                    name: name.clone(),
                    path: join_path(&paths.common, name.as_str()),
                    builtin: true,
                },
            )
        } else {
            None
        }
    }

    /// As `from_name`, with the error that names the tool that was not found.
    pub fn resolve(
        name: &String,
        paths: &SteamPaths,
        in_common: bool,
        in_compat_tools: bool,
    ) -> (r: Result<SteamCompat, ResolutionError>)
        ensures
            match resolution(name@, *paths, in_common, in_compat_tools) {
                Some(v) => r is Ok && r->Ok_0.view() == v,
                None => r is Err && r->Err_0.name@ == name@,
            },
    {
        match SteamCompat::from_name(name, paths, in_common, in_compat_tools) {
            Some(t) => Ok(t),
            None => Err(ResolutionError { name: name.clone() }),
        }
    }

    /// The identifier, tagged with whether it is only a best guess. A
    /// user-installed tool goes by its folder name; a vendor-shipped one by the
    /// name derived from its snake-cased display name.
    pub fn internal_derivation(&self) -> (r: Derivation)
        ensures
            r.text() == internal_name_of(self.name@, self.builtin),
            r is Fallback <==> (self.builtin && vendor_slug(snake_case_of(self.name@)) is None),
    {
        if self.builtin {
            let snake = to_snake_case(&self.name);
            derive_internal_name(&snake)
        } else {
            Derivation::Derived(self.name.clone())
        }
    }

    /// The identifier that the platform's command interface selects this tool by.
    pub fn internal_name(&self) -> (r: String)
        ensures
            r@ == internal_name_of(self.name@, self.builtin),
    {
        let d = self.internal_derivation();
        d.identifier().clone()
    }
}

} // verus!
