//! Request assembly: turns endpoint inputs (locale, facet name, barcode,
//! search query, output options) into an absolute URL and a query-parameter
//! list. The HTTP transport around the library dispatches the assembled
//! requests and returns the raw responses.

use vstd::prelude::*;
use vstd::string::*;

use crate::locale::{lc_view, locale_str, Locale};
use crate::output::{names_view, project, Output};
use crate::search::SearchParams;
use crate::types::{params_view, Params, Version, V0, V2};

verus! {

/// The url crate's error type, surfaced unchanged inside [`Error`].
#[verifier::external_type_specification]
#[verifier::external_body]
pub struct ExParseError(url::ParseError);

/// A request-assembly error. URL assembly is the only fallible step of
/// building a request: a malformed base URL or path segment surfaces as
/// a URL-parse error.
#[derive(Debug)]
pub enum Error {
    /// The base URL or a path segment did not parse as a URL.
    UrlParse(url::ParseError),
}

/// What the url crate yields when the reference `path` is resolved
/// against the base URL string `base` (RFC 3986 reference resolution,
/// as `url::Url::parse` followed by `url::Url::join`): the resolved
/// URL's serialization, or nothing when parsing or resolution fails.
pub uninterp spec fn url_join_of(base: Seq<char>, path: Seq<char>) -> Option<Seq<char>>;

/// Relies on `url::Url::parse` and `url::Url::join` (with `Url::as_str`
/// for the serialization): both are functions of their string inputs
/// alone; the call errors exactly when parsing or resolution fails.
#[verifier::external_body]
fn resolve(base: &str, path: &str) -> (r: Result<String, url::ParseError>)
    ensures
        r is Ok <==> url_join_of(base@, path@) is Some,
        r matches Ok(u) ==> Some(u@) == url_join_of(base@, path@),
{
    match url::Url::parse(base) {
        Ok(b) => match b.join(path) {
            Ok(u) => Ok(u.as_str().to_owned()),
            Err(e) => Err(e),
        },
        Err(e) => Err(e),
    }
}

/// One assembled GET request: the absolute URL and the query parameters
/// to attach to it.
#[derive(Debug)]
pub struct Request {
    pub url: String,
    pub params: Params,
}

/// The base URL string of a subdomain: `https://{locale}.{api-host}/`.
pub open spec fn base_of(cc: Seq<char>, lc: Option<Seq<char>>) -> Seq<char> {
    "https://"@ + locale_str(cc, lc) + ".openfoodfacts.org/"@
}

/// The base URL string chosen for a request: from the output options'
/// locale when one is set, from the client's default locale otherwise.
pub open spec fn chosen_base(default: Locale, output: Option<Output>) -> Seq<char> {
    match output {
        Some(o) => match o.locale {
            Some(l) => base_of(l.cc@, lc_view(l.lc)),
            None => base_of(default.cc@, lc_view(default.lc)),
        },
        None => base_of(default.cc@, lc_view(default.lc)),
    }
}

/// The URL of a taxonomy request. Taxonomies are static files pinned to
/// the `"world"` subdomain: no locale enters into this function.
pub open spec fn taxonomy_url_of(taxonomy: Seq<char>) -> Option<Seq<char>> {
    url_join_of(base_of("world"@, None), "data/taxonomies/"@ + taxonomy + ".json"@)
}

/// The URL of a category-listing request, pinned to the `"world"`
/// subdomain like the taxonomies: no locale enters into this function.
pub open spec fn categories_url_of() -> Option<Seq<char>> {
    url_join_of(base_of("world"@, None), "categories.json"@)
}

/// The URL of a facet request under the given base.
pub open spec fn facet_url_of(base: Seq<char>, facet: Seq<char>) -> Option<Seq<char>> {
    url_join_of(base, facet + ".json"@)
}

/// The CGI root under the given base.
pub open spec fn cgi_url_of(base: Seq<char>) -> Option<Seq<char>> {
    url_join_of(base, "cgi/"@)
}

/// The URL of a nutrients request: `nutrients.pl` under the CGI root.
pub open spec fn nutrients_url_of(base: Seq<char>) -> Option<Seq<char>> {
    match cgi_url_of(base) {
        Some(c) => url_join_of(c, "nutrients.pl"@),
        None => None,
    }
}

/// The URL of a products-by-facet-or-category request.
pub open spec fn products_by_url_of(base: Seq<char>, what: Seq<char>, id: Seq<char>) -> Option<
    Seq<char>,
> {
    url_join_of(base, what + "/"@ + id + ".json"@)
}

/// The API root with the version path segment: `api/{version}/` under
/// the given base.
pub open spec fn api_url_of(base: Seq<char>, version: Seq<char>) -> Option<Seq<char>> {
    url_join_of(base, "api/"@ + version + "/"@)
}

/// The URL of a product-by-barcode request.
pub open spec fn product_url_of(base: Seq<char>, version: Seq<char>, barcode: Seq<char>) -> Option<
    Seq<char>,
> {
    match api_url_of(base, version) {
        Some(a) => url_join_of(a, "product/"@ + barcode),
        None => None,
    }
}

/// The URL of a legacy search request: `search.pl` under the CGI root.
pub open spec fn cgi_search_url_of(base: Seq<char>) -> Option<Seq<char>> {
    match cgi_url_of(base) {
        Some(c) => url_join_of(c, "search.pl"@),
        None => None,
    }
}

/// The URL of a V2 search request: `search` under the versioned API root.
pub open spec fn api_search_url_of(base: Seq<char>, version: Seq<char>) -> Option<Seq<char>> {
    match api_url_of(base, version) {
        Some(a) => url_join_of(a, "search"@),
        None => None,
    }
}

/// The allow-list of a facet request.
pub open spec fn facet_allow() -> Seq<Seq<char>> {
    seq!["page"@, "page_size"@, "fields"@, "nocache"@]
}

/// The allow-list of a products-by request.
pub open spec fn pagination_allow() -> Seq<Seq<char>> {
    seq!["page"@, "page_size"@, "fields"@]
}

/// The allow-list of the requests that only shape response fields.
pub open spec fn fields_allow() -> Seq<Seq<char>> {
    seq!["fields"@]
}

/// The query parameters an optional output-options bag contributes.
pub open spec fn output_params_of(output: Option<Output>, allow: Seq<Seq<char>>) -> Seq<
    (Seq<char>, Seq<char>),
> {
    match output {
        Some(o) => project(o, allow),
        None => Seq::empty(),
    }
}

/// Locale invariance of the `"world"`-pinned endpoints: the taxonomy and
/// category-listing URLs take no locale at all, and their base is the
/// literal `"world"` base URL — so the emitted subdomain is `"world"`
/// whatever locale a client was configured with or a caller passed in.
pub proof fn lemma_world_base(taxonomy: Seq<char>)
    ensures
        taxonomy_url_of(taxonomy) == url_join_of(
            "https://world.openfoodfacts.org/"@,
            "data/taxonomies/"@ + taxonomy + ".json"@,
        ),
        categories_url_of() == url_join_of(
            "https://world.openfoodfacts.org/"@,
            "categories.json"@,
        ),
{
    reveal_strlit("https://");
    reveal_strlit("world");
    reveal_strlit(".openfoodfacts.org/");
    reveal_strlit("https://world.openfoodfacts.org/");
    assert(base_of("world"@, None) =~= "https://world.openfoodfacts.org/"@);
}

/// The verified request-assembly core of a client: it owns the version
/// marker and the default locale, and turns endpoint inputs into
/// absolute URLs and query-parameter lists.
pub struct OffApi<V> {
    pub v: V,
    pub locale: Locale,
}

impl<V: Version + Copy> OffApi<V> {
    /// A request assembler for the given version and default locale.
    pub fn new(v: V, locale: Locale) -> (r: OffApi<V>)
        ensures
            r.v == v,
            r.locale == locale,
    {
        OffApi { v, locale }
    }

    /// The base URL string for the given locale, or for the default
    /// locale when none is given.
    fn base_url(&self, locale: Option<&Locale>) -> (r: String)
        ensures
            r@ == match locale {
                Some(l) => base_of(l.cc@, lc_view(l.lc)),
                None => base_of(self.locale.cc@, lc_view(self.locale.lc)),
            },
    {
        let l = match locale {
            Some(l) => l,
            None => &self.locale,
        };
        let mut s = "https://".to_owned();
        let ls = l.to_string();
        s.append(ls.as_str());
        s.append(".openfoodfacts.org/");
        proof {
            assert(s@ =~= base_of(l.cc@, lc_view(l.lc)));
        }
        s
    }

    /// The base URL string chosen by the output options, as
    /// [`chosen_base`] describes.
    fn chosen_base_url(&self, output: &Option<Output>) -> (r: String)
        ensures
            r@ == chosen_base(self.locale, *output),
    {
        match output {
            Some(o) => match &o.locale {
                Some(l) => self.base_url(Some(l)),
                None => self.base_url(None),
            },
            None => self.base_url(None),
        }
    }

    /// Gets the given taxonomy: a static JSON file, always under the
    /// `"world"` subdomain.
    pub fn taxonomy(&self, taxonomy: &str) -> (r: Result<Request, Error>)
        ensures
            r is Ok <==> taxonomy_url_of(taxonomy@) is Some,
            r matches Ok(req) ==> Some(req.url@) == taxonomy_url_of(taxonomy@)
                && req.params@.len() == 0,
    {
        let base = self.base_url_world();
        let mut path = "data/taxonomies/".to_owned();
        path.append(taxonomy);
        path.append(".json");
        match resolve(base.as_str(), path.as_str()) {
            Ok(url) => Ok(Request { url, params: Vec::new() }),
            Err(e) => Err(Error::UrlParse(e)),
        }
    }

    /// Gets the given facet listing. The output options may contribute
    /// the locale and the `page`, `page_size`, `fields` and `nocache`
    /// parameters.
    pub fn facet(&self, facet: &str, output: Option<Output>) -> (r: Result<Request, Error>)
        ensures
            r is Ok <==> facet_url_of(chosen_base(self.locale, output), facet@) is Some,
            r matches Ok(req) ==> Some(req.url@) == facet_url_of(
                chosen_base(self.locale, output),
                facet@,
            ) && params_view(req.params@) == output_params_of(output, facet_allow()),
    {
        let base = self.chosen_base_url(&output);
        let mut path = facet.to_owned();
        path.append(".json");
        let url = match resolve(base.as_str(), path.as_str()) {
            Ok(u) => u,
            Err(e) => {
                return Err(Error::UrlParse(e));
            },
        };
        let params = match output {
            Some(o) => {
                let mut names: Vec<&str> = Vec::new();
                names.push("page");
                names.push("page_size");
                names.push("fields");
                names.push("nocache");
                proof {
                    assert(names_view(names@) =~= facet_allow());
                }
                o.params(names.as_slice())
            },
            None => Vec::new(),
        };
        Ok(Request { url, params })
    }

    /// Gets all the categories: pinned to the `"world"` subdomain like
    /// the taxonomies. The output options contribute nothing here.
    pub fn categories(&self, output: Option<Output>) -> (r: Result<Request, Error>)
        ensures
            r is Ok <==> categories_url_of() is Some,
            r matches Ok(req) ==> Some(req.url@) == categories_url_of() && req.params@.len() == 0,
    {
        let base = self.base_url_world();
        match resolve(base.as_str(), "categories.json") {
            Ok(url) => Ok(Request { url, params: Vec::new() }),
            Err(e) => Err(Error::UrlParse(e)),
        }
    }

    /// Gets the nutrients by country: `nutrients.pl` under the CGI root
    /// of the chosen locale. The output options may contribute the
    /// locale only.
    pub fn nutrients(&self, output: Option<Output>) -> (r: Result<Request, Error>)
        ensures
            r is Ok <==> nutrients_url_of(chosen_base(self.locale, output)) is Some,
            r matches Ok(req) ==> Some(req.url@) == nutrients_url_of(
                chosen_base(self.locale, output),
            ) && req.params@.len() == 0,
    {
        let base = self.chosen_base_url(&output);
        let cgi = match resolve(base.as_str(), "cgi/") {
            Ok(u) => u,
            Err(e) => {
                return Err(Error::UrlParse(e));
            },
        };
        match resolve(cgi.as_str(), "nutrients.pl") {
            Ok(url) => Ok(Request { url, params: Vec::new() }),
            Err(e) => Err(Error::UrlParse(e)),
        }
    }

    /// Gets all products for the given facet or category. The output
    /// options may contribute the locale and the `page`, `page_size`
    /// and `fields` parameters.
    pub fn products_by(&self, what: &str, id: &str, output: Option<Output>) -> (r: Result<
        Request,
        Error,
    >)
        ensures
            r is Ok <==> products_by_url_of(chosen_base(self.locale, output), what@, id@) is Some,
            r matches Ok(req) ==> Some(req.url@) == products_by_url_of(
                chosen_base(self.locale, output),
                what@,
                id@,
            ) && params_view(req.params@) == output_params_of(output, pagination_allow()),
    {
        let base = self.chosen_base_url(&output);
        let mut path = what.to_owned();
        path.append("/");
        path.append(id);
        path.append(".json");
        let url = match resolve(base.as_str(), path.as_str()) {
            Ok(u) => u,
            Err(e) => {
                return Err(Error::UrlParse(e));
            },
        };
        let params = match output {
            Some(o) => {
                let mut names: Vec<&str> = Vec::new();
                names.push("page");
                names.push("page_size");
                names.push("fields");
                proof {
                    assert(names_view(names@) =~= pagination_allow());
                }
                o.params(names.as_slice())
            },
            None => Vec::new(),
        };
        Ok(Request { url, params })
    }

    /// Gets the given product by barcode, under the versioned API root.
    /// The output options may contribute the locale and the `fields`
    /// parameter.
    pub fn product(&self, barcode: &str, output: Option<Output>) -> (r: Result<Request, Error>)
        ensures
            r is Ok <==> product_url_of(
                chosen_base(self.locale, output),
                self.v.spec_version(),
                barcode@,
            ) is Some,
            r matches Ok(req) ==> Some(req.url@) == product_url_of(
                chosen_base(self.locale, output),
                self.v.spec_version(),
                barcode@,
            ) && params_view(req.params@) == output_params_of(output, fields_allow()),
    {
        let base = self.chosen_base_url(&output);
        let api = match self.api_url(base.as_str()) {
            Ok(u) => u,
            Err(e) => {
                return Err(e);
            },
        };
        let mut path = "product/".to_owned();
        path.append(barcode);
        let url = match resolve(api.as_str(), path.as_str()) {
            Ok(u) => u,
            Err(e) => {
                return Err(Error::UrlParse(e));
            },
        };
        let params = Self::fields_params(output);
        Ok(Request { url, params })
    }

    /// The base URL string of the `"world"` subdomain.
    fn base_url_world(&self) -> (r: String)
        ensures
            r@ == base_of("world"@, None),
    {
        let l = Locale::default();
        self.base_url(Some(&l))
    }

    /// The versioned API root string under the given base.
    fn api_url(&self, base: &str) -> (r: Result<String, Error>)
        ensures
            r is Ok <==> api_url_of(base@, self.v.spec_version()) is Some,
            r matches Ok(u) ==> Some(u@) == api_url_of(base@, self.v.spec_version()),
    {
        let mut path = "api/".to_owned();
        path.append(self.v.version());
        path.append("/");
        match resolve(base, path.as_str()) {
            Ok(u) => Ok(u),
            Err(e) => Err(Error::UrlParse(e)),
        }
    }

    /// The parameters an optional output-options bag contributes to the
    /// requests that only recognize `fields`.
    fn fields_params(output: Option<Output>) -> (r: Params)
        ensures
            params_view(r@) == output_params_of(output, fields_allow()),
    {
        match output {
            Some(o) => {
                let mut names: Vec<&str> = Vec::new();
                names.push("fields");
                proof {
                    assert(names_view(names@) =~= fields_allow());
                }
                o.params(names.as_slice())
            },
            None => Vec::new(),
        }
    }
}

impl OffApi<V0> {
    /// A fresh legacy search query builder.
    pub fn query(&self) -> (r: crate::search::SearchQueryV0)
        ensures
            r.params@.len() == 0,
            r.state.criteria_index == 0,
            r.state.nutrient_index == 0,
            r.state.sort_by is None,
    {
        crate::search::SearchQueryV0::new()
    }

    /// Runs a legacy search: the query's parameters, then the output's
    /// `fields` parameter, against `search.pl` under the CGI root.
    pub fn search<Q: SearchParams>(&self, search: &Q, output: Option<Output>) -> (r: Result<
        Request,
        Error,
    >)
        ensures
            r is Ok <==> cgi_search_url_of(chosen_base(self.locale, output)) is Some,
            r matches Ok(req) ==> Some(req.url@) == cgi_search_url_of(
                chosen_base(self.locale, output),
            ) && params_view(req.params@) == search.spec_params() + output_params_of(
                output,
                fields_allow(),
            ),
    {
        let base = self.chosen_base_url(&output);
        let cgi = match resolve(base.as_str(), "cgi/") {
            Ok(u) => u,
            Err(e) => {
                return Err(Error::UrlParse(e));
            },
        };
        let url = match resolve(cgi.as_str(), "search.pl") {
            Ok(u) => u,
            Err(e) => {
                return Err(Error::UrlParse(e));
            },
        };
        let mut params = search.params();
        let mut extra = Self::fields_params(output);
        params.append(&mut extra);
        proof {
            assert(params_view(params@) =~= search.spec_params() + output_params_of(
                output,
                fields_allow(),
            ));
        }
        Ok(Request { url, params })
    }
}

impl OffApi<V2> {
    /// A fresh V2 search query builder.
    pub fn query(&self) -> (r: crate::search::SearchQueryV2)
        ensures
            r.params@.len() == 0,
            r.state.sort_by is None,
    {
        crate::search::SearchQueryV2::new()
    }

    /// Runs a V2 search: the query's parameters, then the output's
    /// `fields` parameter, against `search` under the versioned API root.
    pub fn search<Q: SearchParams>(&self, search: &Q, output: Option<Output>) -> (r: Result<
        Request,
        Error,
    >)
        ensures
            r is Ok <==> api_search_url_of(
                chosen_base(self.locale, output),
                self.v.spec_version(),
            ) is Some,
            r matches Ok(req) ==> Some(req.url@) == api_search_url_of(
                chosen_base(self.locale, output),
                self.v.spec_version(),
            ) && params_view(req.params@) == search.spec_params() + output_params_of(
                output,
                fields_allow(),
            ),
    {
        let base = self.chosen_base_url(&output);
        let api = match self.api_url(base.as_str()) {
            Ok(u) => u,
            Err(e) => {
                return Err(e);
            },
        };
        let url = match resolve(api.as_str(), "search") {
            Ok(u) => u,
            Err(e) => {
                return Err(Error::UrlParse(e));
            },
        };
        let mut params = search.params();
        let mut extra = Self::fields_params(output);
        params.append(&mut extra);
        proof {
            assert(params_view(params@) =~= search.spec_params() + output_params_of(
                output,
                fields_allow(),
            ));
        }
        Ok(Request { url, params })
    }

    /// Searches products by a comma-separated list of barcodes: a
    /// `code` parameter, then the output's `fields` parameter, against
    /// the V2 search URL.
    pub fn search_by_barcode(&self, barcodes: &str, output: Option<Output>) -> (r: Result<
        Request,
        Error,
    >)
        ensures
            r is Ok <==> api_search_url_of(
                chosen_base(self.locale, output),
                self.v.spec_version(),
            ) is Some,
            r matches Ok(req) ==> Some(req.url@) == api_search_url_of(
                chosen_base(self.locale, output),
                self.v.spec_version(),
            ) && params_view(req.params@) == seq![("code"@, barcodes@)] + output_params_of(
                output,
                fields_allow(),
            ),
    {
        let base = self.chosen_base_url(&output);
        let api = match self.api_url(base.as_str()) {
            Ok(u) => u,
            Err(e) => {
                return Err(e);
            },
        };
        let url = match resolve(api.as_str(), "search") {
            Ok(u) => u,
            Err(e) => {
                return Err(Error::UrlParse(e));
            },
        };
        let mut params: Params = Vec::new();
        params.push(("code".to_owned(), barcodes.to_owned()));
        let mut extra = Self::fields_params(output);
        params.append(&mut extra);
        proof {
            assert(params_view(params@) =~= seq![("code"@, barcodes@)] + output_params_of(
                output,
                fields_allow(),
            ));
        }
        Ok(Request { url, params })
    }
}

} // verus!
