//! Output options: a bag of optional request-shaping flags, and their
//! projection onto query parameters under a per-endpoint allow-list.

use vstd::prelude::*;
use vstd::string::*;

use crate::locale::Locale;
use crate::text::{bool_str, bool_string, dec_str, decimal_string, str_eq};
use crate::types::{params_view, Params};

verus! {

/// General output parameters. Not every endpoint supports every parameter;
/// a `None` field is left out of the query parameters entirely.
#[derive(Debug)]
pub struct Output {
    pub locale: Option<Locale>,
    pub page: Option<usize>,
    pub page_size: Option<usize>,
    pub fields: Option<&'static str>,
    pub nocache: Option<bool>,
}

/// The value the projection emits for a name: `None` for an unrecognized
/// name (`locale` among them) and for an unset field.
pub open spec fn field_value(o: Output, name: Seq<char>) -> Option<Seq<char>> {
    if name == "page"@ {
        match o.page {
            Some(p) => Some(dec_str(p as nat)),
            None => None,
        }
    } else if name == "page_size"@ {
        match o.page_size {
            Some(p) => Some(dec_str(p as nat)),
            None => None,
        }
    } else if name == "fields"@ {
        match o.fields {
            Some(f) => Some(f@),
            None => None,
        }
    } else if name == "nocache"@ {
        match o.nocache {
            Some(b) => Some(bool_str(b)),
            None => None,
        }
    } else {
        None
    }
}

/// The views of a list of names.
pub open spec fn names_view(names: Seq<&str>) -> Seq<Seq<char>> {
    names.map(|i: int, s: &str| s@)
}

/// Whether position `i` holds the first occurrence of its text in `names`.
pub open spec fn first_occurrence(names: Seq<Seq<char>>, i: int) -> bool {
    forall|j: int| 0 <= j < i ==> names[j] != names[i]
}

/// The projection of the first `n` names of the allow-list: populated,
/// recognized fields only, in first-occurrence order, duplicates ignored.
pub open spec fn project_prefix(o: Output, names: Seq<Seq<char>>, n: int) -> Seq<
    (Seq<char>, Seq<char>),
>
    decreases n,
{
    if n <= 0 {
        Seq::empty()
    } else {
        let prev = project_prefix(o, names, n - 1);
        let t = names[n - 1];
        if first_occurrence(names, n - 1) && field_value(o, t) is Some {
            prev.push((t, field_value(o, t)->0))
        } else {
            prev
        }
    }
}

/// The projection of the whole allow-list.
pub open spec fn project(o: Output, names: Seq<Seq<char>>) -> Seq<(Seq<char>, Seq<char>)> {
    project_prefix(o, names, names.len() as int)
}

/// Whether the name at `i` already occurred earlier in `names`.
fn occurs_before(names: &[&str], i: usize) -> (r: bool)
    requires
        i < names@.len(),
    ensures
        r == !first_occurrence(names_view(names@), i as int),
{
    let mut j: usize = 0;
    while j < i
        invariant
            j <= i,
            i < names@.len(),
            forall|k: int| 0 <= k < j ==> names@[k]@ != names@[i as int]@,
        decreases i - j,
    {
        if str_eq(names[j], names[i]) {
            assert(names_view(names@)[j as int] == names_view(names@)[i as int]);
            assert(!first_occurrence(names_view(names@), i as int));
            return true;
        }
        j = j + 1;
    }
    assert(forall|k: int|
        0 <= k < i ==> names_view(names@)[k] == names@[k]@ && names_view(names@)[i as int]
            == names@[i as int]@);
    false
}

impl Output {
    /// An `Output` with no option set.
    pub fn new() -> (r: Output)
        ensures
            r.locale is None,
            r.page is None,
            r.page_size is None,
            r.fields is None,
            r.nocache is None,
    {
        Output { locale: None, page: None, page_size: None, fields: None, nocache: None }
    }

    /// Sets the locale field.
    pub fn locale(self, locale: Locale) -> (r: Output)
        ensures
            r.locale == Some(locale),
            r.page == self.page,
            r.page_size == self.page_size,
            r.fields == self.fields,
            r.nocache == self.nocache,
    {
        Output { locale: Some(locale), ..self }
    }

    /// Sets the page and page_size fields.
    pub fn pagination(self, page: usize, page_size: usize) -> (r: Output)
        ensures
            r.locale == self.locale,
            r.page == Some(page),
            r.page_size == Some(page_size),
            r.fields == self.fields,
            r.nocache == self.nocache,
    {
        self.page(page).page_size(page_size)
    }

    /// Sets the page field.
    pub fn page(self, page: usize) -> (r: Output)
        ensures
            r.locale == self.locale,
            r.page == Some(page),
            r.page_size == self.page_size,
            r.fields == self.fields,
            r.nocache == self.nocache,
    {
        Output { page: Some(page), ..self }
    }

    /// Sets the page_size field.
    pub fn page_size(self, page_size: usize) -> (r: Output)
        ensures
            r.locale == self.locale,
            r.page == self.page,
            r.page_size == Some(page_size),
            r.fields == self.fields,
            r.nocache == self.nocache,
    {
        Output { page_size: Some(page_size), ..self }
    }

    /// Sets the fields field: a comma-separated list of field names.
    /// An empty list counts as absent.
    pub fn fields(self, fields: &'static str) -> (r: Output)
        ensures
            r.locale == self.locale,
            r.page == self.page,
            r.page_size == self.page_size,
            r.fields == (if fields@.len() == 0 {
                None::<&'static str>
            } else {
                Some(fields)
            }),
            r.nocache == self.nocache,
    {
        if fields.is_empty() {
            Output { fields: None, ..self }
        } else {
            Output { fields: Some(fields), ..self }
        }
    }

    /// Sets the nocache field.
    pub fn nocache(self, nocache: bool) -> (r: Output)
        ensures
            r.locale == self.locale,
            r.page == self.page,
            r.page_size == self.page_size,
            r.fields == self.fields,
            r.nocache == Some(nocache),
    {
        Output { nocache: Some(nocache), ..self }
    }

    /// The value emitted for `name`, already formatted.
    fn value_of(&self, name: &str) -> (r: Option<String>)
        ensures
            r is Some <==> field_value(*self, name@) is Some,
            r is Some ==> r->0@ == field_value(*self, name@)->0,
    {
        if str_eq(name, "page") {
            match self.page {
                Some(p) => Some(decimal_string(p as u64)),
                None => None,
            }
        } else if str_eq(name, "page_size") {
            match self.page_size {
                Some(p) => Some(decimal_string(p as u64)),
                None => None,
            }
        } else if str_eq(name, "fields") {
            match self.fields {
                Some(f) => Some(f.to_owned()),
                None => None,
            }
        } else if str_eq(name, "nocache") {
            match self.nocache {
                Some(b) => Some(bool_string(b)),
                None => None,
            }
        } else {
            None
        }
    }

    /// Projects the populated, allow-listed options into (name, value)
    /// pairs, in allow-list order, ignoring repeated and unrecognized
    /// names. The `locale` option is never emitted as a parameter.
    pub fn params(&self, names: &[&str]) -> (r: Params)
        ensures
            params_view(r@) == project(*self, names_view(names@)),
    {
        let mut r: Params = Vec::new();
        let n = names.len();
        let mut i: usize = 0;
        while i < n
            invariant
                i <= n,
                n == names@.len(),
                params_view(r@) == project_prefix(*self, names_view(names@), i as int),
            decreases n - i,
        {
            let name = names[i];
            if !occurs_before(names, i) {
                match self.value_of(name) {
                    Some(v) => {
                        r.push((name.to_owned(), v));
                    },
                    None => {},
                }
            }
            proof {
                assert(names_view(names@)[i as int] == name@);
                assert(params_view(r@) =~= project_prefix(
                    *self,
                    names_view(names@),
                    i as int + 1,
                ));
            }
            i = i + 1;
        }
        proof {
            assert(names_view(names@).len() == names@.len());
        }
        r
    }
}

} // verus!
