//! Locales: a country code with an optional language code, selecting the
//! API subdomain ("fr", "fr-ca", or "world" for the locale-independent site).

use vstd::prelude::*;
use vstd::string::*;

verus! {

/// A pair of a country code (`cc`) and an optional language code (`lc`).
///
/// The country code is a lowercase ISO 3166-1 code or the special value
/// `"world"`; the language code a lowercase ISO 639-1 code. A locale
/// serializes to `"{cc}"` or `"{cc}-{lc}"`.
#[derive(Debug, PartialEq)]
pub struct Locale {
    pub cc: String,
    pub lc: Option<String>,
}

/// The view of an optional owned language code.
pub open spec fn lc_view(lc: Option<String>) -> Option<Seq<char>> {
    match lc {
        Some(l) => Some(l@),
        None => None,
    }
}

/// The view of an optional borrowed language code.
pub open spec fn lc_ref_view(lc: Option<&str>) -> Option<Seq<char>> {
    match lc {
        Some(l) => Some(l@),
        None => None,
    }
}

/// The serialization of a locale: `"{cc}"` or `"{cc}-{lc}"`.
pub open spec fn locale_str(cc: Seq<char>, lc: Option<Seq<char>>) -> Seq<char> {
    match lc {
        Some(l) => cc + "-"@ + l,
        None => cc,
    }
}

/// The index of the first `'-'` in `s`, or `s.len()` if there is none.
pub open spec fn first_dash(s: Seq<char>) -> int
    decreases s.len(),
{
    if s.len() == 0 {
        0
    } else if s[0] == '-' {
        0
    } else {
        1 + first_dash(s.drop_first())
    }
}

/// `first_dash(s)` is the unique position with no dash before it that is
/// either a dash or the end of the string.
pub proof fn lemma_first_dash_at(s: Seq<char>, k: int)
    requires
        0 <= k <= s.len(),
        forall|j: int| 0 <= j < k ==> s[j] != '-',
        k < s.len() ==> s[k] == '-',
    ensures
        first_dash(s) == k,
    decreases s.len(),
{
    if k == 0 {
        if s.len() != 0 {
            assert(s[0] == '-');
        }
    } else {
        assert(s[0] != '-');
        lemma_first_dash_at(s.drop_first(), k - 1);
    }
}

/// The country code that parsing yields: the text before the first dash,
/// with an empty code replaced by `"world"`.
pub open spec fn parse_cc(s: Seq<char>) -> Seq<char> {
    let cc = s.take(first_dash(s));
    if cc.len() == 0 {
        "world"@
    } else {
        cc
    }
}

/// The language code between the first and second dash, before the
/// empty-code and empty-country adjustments.
pub open spec fn parse_lc_raw(s: Seq<char>) -> Option<Seq<char>> {
    let i = first_dash(s);
    if i == s.len() {
        None
    } else {
        let rest = s.skip(i + 1);
        let l = rest.take(first_dash(rest));
        if l.len() == 0 {
            None
        } else {
            Some(l)
        }
    }
}

/// The language code that parsing yields: dropped when empty or when the
/// country code is empty (which resets the locale to the default).
pub open spec fn parse_lc(s: Seq<char>) -> Option<Seq<char>> {
    if s.take(first_dash(s)).len() == 0 {
        None
    } else {
        parse_lc_raw(s)
    }
}

/// The position of the first `'-'` of `s`, or its length if there is none.
fn find_dash(s: &str) -> (i: usize)
    ensures
        i == first_dash(s@),
        i <= s@.len(),
{
    let n = s.unicode_len();
    let mut i: usize = 0;
    loop
        invariant
            i <= n,
            n == s@.len(),
            forall|j: int| 0 <= j < i ==> s@[j] != '-',
        decreases n - i,
    {
        if i == n {
            proof {
                lemma_first_dash_at(s@, i as int);
            }
            return i;
        }
        if s.get_char(i) == '-' {
            proof {
                lemma_first_dash_at(s@, i as int);
            }
            return i;
        }
        i = i + 1;
    }
}

impl Locale {
    /// A locale with the given country code and optional language code.
    /// An empty country code yields the default locale instead.
    pub fn new(cc: &str, lc: Option<&str>) -> (r: Locale)
        ensures
            r.cc@ == if cc@.len() == 0 {
                "world"@
            } else {
                cc@
            },
            lc_view(r.lc) == if cc@.len() == 0 {
                None::<Seq<char>>
            } else {
                lc_ref_view(lc)
            },
    {
        if cc.is_empty() {
            Locale::default()
        } else {
            Locale {
                cc: cc.to_owned(),
                lc: match lc {
                    Some(l) => Some(l.to_owned()),
                    None => None,
                },
            }
        }
    }

    /// A locale parsed from `"{cc}"` or `"{cc}-{lc}"`. Anything after a
    /// second dash is ignored; an empty language code counts as absent;
    /// an empty country code yields the default locale.
    pub fn parse(s: &str) -> (r: Locale)
        ensures
            r.cc@ == parse_cc(s@),
            lc_view(r.lc) == parse_lc(s@),
    {
        let n = s.unicode_len();
        let i = find_dash(s);
        let cc = s.substring_char(0, i);
        proof {
            assert(cc@ =~= s@.take(first_dash(s@)));
        }
        if i == n {
            Locale::new(cc, None)
        } else {
            let rest = s.substring_char(i + 1, n);
            proof {
                assert(rest@ =~= s@.skip(first_dash(s@) + 1));
            }
            let j = find_dash(rest);
            let lc = rest.substring_char(0, j);
            proof {
                assert(lc@ =~= rest@.take(first_dash(rest@)));
            }
            if lc.is_empty() {
                Locale::new(cc, None)
            } else {
                Locale::new(cc, Some(lc))
            }
        }
    }

    /// The serialization `"{cc}"` or `"{cc}-{lc}"`.
    pub fn to_string(&self) -> (r: String)
        ensures
            r@ == locale_str(self.cc@, lc_view(self.lc)),
    {
        let mut s = self.cc.clone();
        match &self.lc {
            Some(l) => {
                s.append("-");
                s.append(l.as_str());
                proof {
                    assert(s@ =~= locale_str(self.cc@, lc_view(self.lc)));
                }
            },
            None => {},
        }
        s
    }
}

impl Default for Locale {
    /// The default locale: country code `"world"`, no language code.
    fn default() -> (r: Locale)
        ensures
            r.cc@ == "world"@,
            r.lc is None,
    {
        Locale { cc: "world".to_owned(), lc: None }
    }
}

/// A code that can stand in a serialized locale: non-empty and dash-free.
pub open spec fn valid_code(s: Seq<char>) -> bool {
    s.len() > 0 && forall|j: int| 0 <= j < s.len() ==> s[j] != '-'
}

/// Round trip: serializing a locale made of valid codes and parsing the
/// result back yields the same country and language codes.
pub proof fn lemma_locale_round_trip(cc: Seq<char>, lc: Option<Seq<char>>)
    requires
        valid_code(cc),
        lc is Some ==> valid_code(lc->0),
    ensures
        parse_cc(locale_str(cc, lc)) == cc,
        parse_lc(locale_str(cc, lc)) == lc,
{
    reveal_strlit("-");
    match lc {
        None => {
            lemma_first_dash_at(cc, cc.len() as int);
            assert(cc.take(first_dash(cc)) =~= cc);
        },
        Some(l) => {
            let s = cc + "-"@ + l;
            assert(forall|j: int| 0 <= j < cc.len() ==> s[j] == cc[j]);
            assert(s[cc.len() as int] == '-');
            lemma_first_dash_at(s, cc.len() as int);
            assert(s.take(first_dash(s)) =~= cc);
            let rest = s.skip(cc.len() as int + 1);
            assert(rest =~= l);
            lemma_first_dash_at(l, l.len() as int);
            assert(l.take(first_dash(l)) =~= l);
        },
    }
}

} // verus!
