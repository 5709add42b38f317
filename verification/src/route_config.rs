//! The routing configuration that a gateway receives: for each HTTP route
//! attached to it, the host headers it serves and, for each rule, the
//! filters, matches and backends.
use crate::backends::{Backend, BackendView};
use crate::decimal::{decimal, format_u64};
use crate::kinds::{access_control_filter_kind, static_response_filter_kind};
use crate::object_ref::{display_spec, ObjectMeta, ObjectRef, ObjectRefView};
use crate::ref_map::{ref_entries, RefMap};
use crate::routes::{
    flat, parents_of, ParentRefSpec, HeaderModifierSpec, HttpHeader, HttpMethod, HttpRoute, HttpRouteSpec,
    NameValueMatchSpec, PathMatchSpec, PathMatchType, PathModifierSpec, PathModifierType,
    RedirectScheme, RequestRedirectSpec, RouteFilterSpec, RouteMatchSpec, RouteRuleSpec,
    UrlRewriteSpec, ValueMatchType, BackendRefSpec, backend_service_ref,
};
use crate::text::{clone_opt_string, opt_view, push_str, str_equals};
use std::sync::Arc;
use vstd::prelude::*;
use vstd::string::*;

verus! {

/// A hostname that a listener or a route serves: exactly this host, or any
/// host with this suffix.
#[derive(Debug, PartialEq, Eq)]
pub enum HostnameMatch {
    Exact(String),
    Suffix(String),
}

/// The model of a [`HostnameMatch`].
pub enum HostnameMatchView {
    Exact(Seq<char>),
    Suffix(Seq<char>),
}

impl View for HostnameMatch {
    type V = HostnameMatchView;

    open spec fn view(&self) -> HostnameMatchView {
        match self {
            HostnameMatch::Exact(h) => HostnameMatchView::Exact(h@),
            HostnameMatch::Suffix(h) => HostnameMatchView::Suffix(h@),
        }
    }
}

/// A text without its leading asterisks.
pub open spec fn trim_stars(s: Seq<char>) -> Seq<char>
    decreases s.len(),
{
    if s.len() > 0 && s[0] == '*' {
        trim_stars(s.drop_first())
    } else {
        s
    }
}

/// How a hostname is matched: an absent or empty one matches nothing, one
/// that starts with an asterisk matches the suffix after its leading
/// asterisks, any other matches exactly.
pub open spec fn hostname_match_of(hostname: Option<Seq<char>>) -> Option<HostnameMatchView> {
    match hostname {
        None => None,
        Some(h) => if h.len() == 0 {
            None
        } else if h[0] == '*' {
            Some(HostnameMatchView::Suffix(trim_stars(h)))
        } else {
            Some(HostnameMatchView::Exact(h))
        },
    }
}

/// Dropping the leading asterisks leaves none at the start.
proof fn lemma_trim_stars(s: Seq<char>)
    ensures
        trim_stars(s).len() == 0 || trim_stars(s)[0] != '*',
    decreases s.len(),
{
    if s.len() > 0 && s[0] == '*' {
        lemma_trim_stars(s.drop_first());
    }
}

/// A hostname that starts with an asterisk matches by the suffix after all
/// its leading asterisks, so the suffix never starts with one; any other
/// non-empty hostname matches exactly as written.
pub proof fn law_hostname_match_shape(h: Seq<char>)
    ensures
        hostname_match_of(Some(h)) matches Some(HostnameMatchView::Suffix(s)) ==> (s.len() == 0
            || s[0] != '*'),
        h.len() > 0 && h[0] != '*' ==> hostname_match_of(Some(h)) == Some(
            HostnameMatchView::Exact(h),
        ),
        h.len() == 0 ==> hostname_match_of(Some(h)) is None,
{
    lemma_trim_stars(h);
}

/// The hostname match of an optional hostname.
pub fn map_hostname_match_to_type(hostname: Option<&String>) -> (r: Option<HostnameMatch>)
    ensures
        match r {
            Some(m) => hostname_match_of(
                match hostname {
                    Some(h) => Some(h@),
                    None => None,
                },
            ) == Some(m@),
            None => hostname_match_of(
                match hostname {
                    Some(h) => Some(h@),
                    None => None,
                },
            ) is None,
        },
{
    let h = match hostname {
        Some(h) => h,
        None => return None,
    };
    let n = h.as_str().unicode_len();
    if n == 0 {
        return None;
    }
    if h.as_str().get_char(0) != '*' {
        return Some(HostnameMatch::Exact(h.clone()));
    }
    let mut i: usize = 0;
    assert(h@.subrange(0, n as int) =~= h@);
    while i < n && h.as_str().get_char(i) == '*'
        invariant
            i <= n,
            n == h@.len(),
            forall|j: int| 0 <= j < i ==> h@[j] == '*',
            trim_stars(h@) == trim_stars(h@.subrange(i as int, n as int)),
        decreases n - i,
    {
        assert(h@.subrange(i as int, n as int).drop_first() =~= h@.subrange(i + 1, n as int));
        i += 1;
    }
    let rest = h.as_str().substring_char(i, n);
    assert(trim_stars(h@.subrange(i as int, n as int)) == h@.subrange(i as int, n as int));
    Some(HostnameMatch::Suffix(String::from_str(rest)))
}

/// A header modifier as the gateway applies it.
#[derive(Debug, PartialEq, Eq)]
pub struct HeaderModifierConfig {
    pub set: Option<Vec<HttpHeader>>,
    pub add: Option<Vec<HttpHeader>>,
    pub remove: Option<Vec<String>>,
}

/// The model of a [`HeaderModifierConfig`].
pub struct HeaderModifierView {
    pub set: Option<Seq<HttpHeader>>,
    pub add: Option<Seq<HttpHeader>>,
    pub remove: Option<Seq<String>>,
}

impl HeaderModifierConfig {
    /// The headers to set.
    pub fn set(&self) -> (r: &Option<Vec<HttpHeader>>)
        ensures
            r == &self.set,
    {
        &self.set
    }

    /// The headers to add.
    pub fn add(&self) -> (r: &Option<Vec<HttpHeader>>)
        ensures
            r == &self.add,
    {
        &self.add
    }

    /// The names of the headers to remove.
    pub fn remove(&self) -> (r: &Option<Vec<String>>)
        ensures
            r == &self.remove,
    {
        &self.remove
    }
}

/// The contents of an optional list.
pub open spec fn opt_seq<T>(o: Option<Vec<T>>) -> Option<Seq<T>> {
    match o {
        Some(v) => Some(v@),
        None => None,
    }
}

impl View for HeaderModifierConfig {
    type V = HeaderModifierView;

    open spec fn view(&self) -> HeaderModifierView {
        HeaderModifierView {
            set: opt_seq(self.set),
            add: opt_seq(self.add),
            remove: opt_seq(self.remove),
        }
    }
}

/// A header modifier with the same headers to set, add and remove.
pub open spec fn header_modifier_of(m: HeaderModifierSpec) -> HeaderModifierView {
    HeaderModifierView { set: opt_seq(m.set), add: opt_seq(m.add), remove: opt_seq(m.remove) }
}

fn clone_headers(v: &Option<Vec<HttpHeader>>) -> (r: Option<Vec<HttpHeader>>)
    ensures
        opt_seq(r) == opt_seq(*v),
{
    match v {
        Some(v) => {
            let c = v.clone();
            assert(c@ =~= v@);
            Some(c)
        },
        None => None,
    }
}

fn clone_names(v: &Option<Vec<String>>) -> (r: Option<Vec<String>>)
    ensures
        opt_seq(r) == opt_seq(*v),
{
    match v {
        Some(v) => {
            let c = v.clone();
            assert(c@ =~= v@);
            Some(c)
        },
        None => None,
    }
}

/// Converts a header modifier filter of a route into the gateway's form:
/// the same headers to set, to add and to remove.
pub fn convert_header_modifier(m: &HeaderModifierSpec) -> (r: HeaderModifierConfig)
    ensures
        r@ == header_modifier_of(*m),
{
    HeaderModifierConfig {
        set: clone_headers(&m.set),
        add: clone_headers(&m.add),
        remove: clone_names(&m.remove),
    }
}

/// The error of converting a filter.
#[derive(Debug, Clone, PartialEq, Eq)]
pub enum FilterConversionError {
    InvalidHeaderName(String),
    InvalidHeaderValue(String),
}

/// Converts a request header modifier filter; every modifier converts.
pub fn convert_request_header_modifier(m: &HeaderModifierSpec) -> (r: Result<
    Option<HeaderModifierConfig>,
    FilterConversionError,
>)
    ensures
        r is Ok && r->Ok_0 is Some && r->Ok_0->0@ == header_modifier_of(*m),
{
    Ok(Some(convert_header_modifier(m)))
}

/// A path rewrite as the gateway applies it.
#[derive(Debug, PartialEq, Eq)]
pub struct PathRewrite {
    pub rewrite_type: PathModifierType,
    pub replace_full_path: Option<String>,
    pub replace_prefix_match: Option<String>,
}

/// The rewrite of a path modifier: a full path replacement keeps only the
/// full path, a prefix replacement only the prefix.
pub open spec fn path_rewrite_of(p: PathModifierSpec) -> PathRewrite {
    match p.type_ {
        PathModifierType::ReplaceFullPath => PathRewrite {
            rewrite_type: PathModifierType::ReplaceFullPath,
            replace_full_path: p.replace_full_path,
            replace_prefix_match: None,
        },
        PathModifierType::ReplacePrefixMatch => PathRewrite {
            rewrite_type: PathModifierType::ReplacePrefixMatch,
            replace_full_path: None,
            replace_prefix_match: p.replace_prefix_match,
        },
    }
}

/// Converts a path modifier into a path rewrite.
pub fn convert_path_rewrite(p: &PathModifierSpec) -> (r: PathRewrite)
    ensures
        r == path_rewrite_of(*p),
{
    match p.type_ {
        PathModifierType::ReplaceFullPath => PathRewrite {
            rewrite_type: PathModifierType::ReplaceFullPath,
            replace_full_path: clone_opt_string(&p.replace_full_path),
            replace_prefix_match: None,
        },
        PathModifierType::ReplacePrefixMatch => PathRewrite {
            rewrite_type: PathModifierType::ReplacePrefixMatch,
            replace_full_path: None,
            replace_prefix_match: clone_opt_string(&p.replace_prefix_match),
        },
    }
}

/// A request redirect as the gateway applies it.
#[derive(Debug, PartialEq, Eq)]
pub struct RequestRedirect {
    pub scheme: Option<String>,
    pub hostname: Option<String>,
    pub port: Option<u16>,
    pub path: Option<PathRewrite>,
    pub status_code: Option<u16>,
}

/// The model of a [`RequestRedirect`].
pub struct RequestRedirectView {
    pub scheme: Option<Seq<char>>,
    pub hostname: Option<String>,
    pub port: Option<u16>,
    pub path: Option<PathRewrite>,
    pub status_code: Option<u16>,
}

impl View for RequestRedirect {
    type V = RequestRedirectView;

    open spec fn view(&self) -> RequestRedirectView {
        RequestRedirectView {
            scheme: opt_view(self.scheme),
            hostname: self.hostname,
            port: self.port,
            path: self.path,
            status_code: self.status_code,
        }
    }
}

/// A port number, or the given default when the number does not fit in
/// sixteen bits.
pub open spec fn port_or(p: int, default: u16) -> u16 {
    if 0 <= p <= 65535 {
        p as u16
    } else {
        default
    }
}

/// The redirect of a redirect filter: the scheme as `http` or `https`, the
/// same hostname, the port (80 when it does not fit in sixteen bits), the
/// path rewrite, and the status code (302 when it does not fit).
pub open spec fn redirect_of(r: RequestRedirectSpec) -> RequestRedirectView {
    RequestRedirectView {
        scheme: match r.scheme {
            Some(RedirectScheme::Http) => Some("http"@),
            Some(RedirectScheme::Https) => Some("https"@),
            None => None,
        },
        hostname: r.hostname,
        port: match r.port {
            Some(p) => Some(port_or(p as int, 80)),
            None => None,
        },
        path: match r.path {
            Some(p) => Some(path_rewrite_of(p)),
            None => None,
        },
        status_code: match r.status_code {
            Some(c) => Some(port_or(c as int, 302)),
            None => None,
        },
    }
}

/// Converts a request redirect filter.
pub fn convert_request_redirect(r: &RequestRedirectSpec) -> (c: RequestRedirect)
    ensures
        c@ == redirect_of(*r),
{
    let scheme = match r.scheme {
        Some(RedirectScheme::Http) => Some(String::from_str("http")),
        Some(RedirectScheme::Https) => Some(String::from_str("https")),
        None => None,
    };
    let port = match r.port {
        Some(p) => if 0 <= p && p <= 65535 {
            Some(p as u16)
        } else {
            Some(80u16)
        },
        None => None,
    };
    let status_code = match r.status_code {
        Some(c) => if 0 <= c && c <= 65535 {
            Some(c as u16)
        } else {
            Some(302u16)
        },
        None => None,
    };
    let path = match &r.path {
        Some(p) => Some(convert_path_rewrite(p)),
        None => None,
    };
    RequestRedirect { scheme, hostname: clone_opt_string(&r.hostname), port, path, status_code }
}

/// A URL rewrite as the gateway applies it.
#[derive(Debug, PartialEq, Eq)]
pub struct UrlRewrite {
    pub hostname: Option<String>,
    pub path: Option<PathRewrite>,
}

/// The rewrite of a URL rewrite filter: the same hostname and the path
/// rewrite.
pub open spec fn url_rewrite_of(u: UrlRewriteSpec) -> UrlRewrite {
    UrlRewrite {
        hostname: u.hostname,
        path: match u.path {
            Some(p) => Some(path_rewrite_of(p)),
            None => None,
        },
    }
}

/// Converts a URL rewrite filter.
pub fn convert_url_rewrite(u: &UrlRewriteSpec) -> (r: UrlRewrite)
    ensures
        r == url_rewrite_of(*u),
{
    UrlRewrite {
        hostname: clone_opt_string(&u.hostname),
        path: match &u.path {
            Some(p) => Some(convert_path_rewrite(p)),
            None => None,
        },
    }
}

/// A filter that the gateway applies to the requests of a rule.
#[derive(Debug, PartialEq, Eq)]
pub enum RouteFilter {
    RequestHeaderModifier(HeaderModifierConfig),
    ResponseHeaderModifier(HeaderModifierConfig),
    RequestRedirect(RequestRedirect),
    UrlRewrite(UrlRewrite),
    /// A static response, by the key of the filter object that defines it.
    ExtStaticResponse(String),
    /// An access control, by the key of the filter object that defines it.
    ExtAccessControl(String),
}

/// The model of a [`RouteFilter`].
pub enum RouteFilterView {
    RequestHeaderModifier(HeaderModifierView),
    ResponseHeaderModifier(HeaderModifierView),
    RequestRedirect(RequestRedirectView),
    UrlRewrite(UrlRewrite),
    ExtStaticResponse(Seq<char>),
    ExtAccessControl(Seq<char>),
}

impl View for RouteFilter {
    type V = RouteFilterView;

    open spec fn view(&self) -> RouteFilterView {
        match self {
            RouteFilter::RequestHeaderModifier(m) => RouteFilterView::RequestHeaderModifier(m@),
            RouteFilter::ResponseHeaderModifier(m) => RouteFilterView::ResponseHeaderModifier(m@),
            RouteFilter::RequestRedirect(r) => RouteFilterView::RequestRedirect(r@),
            RouteFilter::UrlRewrite(u) => RouteFilterView::UrlRewrite(*u),
            RouteFilter::ExtStaticResponse(k) => RouteFilterView::ExtStaticResponse(k@),
            RouteFilter::ExtAccessControl(k) => RouteFilterView::ExtAccessControl(k@),
        }
    }
}

/// The API group of this project's extension filters.
pub open spec fn extension_group() -> Seq<char> {
    "vale-gateway.whitefamily.in"@
}

/// The key of an extension filter object of the given kind: the text of its
/// reference, in the route's namespace.
pub open spec fn extension_key(kind: Seq<char>, namespace: Option<Seq<char>>, name: Seq<char>) -> Seq<char> {
    display_spec(
        ObjectRefView {
            kind: kind,
            version: "v1alpha1"@,
            group: Some(extension_group()),
            namespace: namespace,
            name: name,
        },
    )
}

/// What an extension reference of a route contributes: a static response or
/// an access control of this project's group; other kinds and groups give
/// nothing.
pub open spec fn extension_filters_of(e: Option<crate::routes::ExtensionRefSpec>, namespace: Option<Seq<char>>) -> Seq<RouteFilterView> {
    match e {
        Some(e) => if e.group@ == extension_group() {
            if e.kind@ == "StaticResponseFilter"@ {
                seq![RouteFilterView::ExtStaticResponse(extension_key(e.kind@, namespace, e.name@))]
            } else if e.kind@ == "AccessControlFilter"@ {
                seq![RouteFilterView::ExtAccessControl(extension_key(e.kind@, namespace, e.name@))]
            } else {
                Seq::empty()
            }
        } else {
            Seq::empty()
        },
        None => Seq::empty(),
    }
}

/// What one filter of a route contributes, in order: its request header
/// modifier, its response header modifier, its redirect, its URL rewrite and
/// its extension reference, each when present.
pub open spec fn filter_outputs(f: RouteFilterSpec, namespace: Option<Seq<char>>) -> Seq<RouteFilterView> {
    let a = match f.request_header_modifier {
        Some(m) => seq![RouteFilterView::RequestHeaderModifier(header_modifier_of(m))],
        None => Seq::empty(),
    };
    let b = match f.response_header_modifier {
        Some(m) => seq![RouteFilterView::ResponseHeaderModifier(header_modifier_of(m))],
        None => Seq::empty(),
    };
    let c = match f.request_redirect {
        Some(r) => seq![RouteFilterView::RequestRedirect(redirect_of(r))],
        None => Seq::empty(),
    };
    let d = match f.url_rewrite {
        Some(u) => seq![RouteFilterView::UrlRewrite(url_rewrite_of(u))],
        None => Seq::empty(),
    };
    a + b + c + d + extension_filters_of(f.extension_ref, namespace)
}

/// What a list of filters contributes, in order.
pub open spec fn filters_outputs(fs: Seq<RouteFilterSpec>, namespace: Option<Seq<char>>) -> Seq<RouteFilterView>
    decreases fs.len(),
{
    if fs.len() == 0 {
        Seq::empty()
    } else {
        filters_outputs(fs.drop_last(), namespace) + filter_outputs(fs.last(), namespace)
    }
}

/// The views of a list of filters.
pub open spec fn filter_views(s: Seq<RouteFilter>) -> Seq<RouteFilterView> {
    s.map_values(|f: RouteFilter| f@)
}

fn push_filter(out: &mut Vec<RouteFilter>, f: RouteFilter)
    ensures
        filter_views(final(out)@) == filter_views(old(out)@).push(f@),
{
    out.push(f);
    assert(filter_views(out@) =~= filter_views(old(out)@).push(f@));
}

fn extension_filter(e: &crate::routes::ExtensionRefSpec, namespace: &Option<String>) -> (r: Option<RouteFilter>)
    ensures
        match r {
            Some(f) => extension_filters_of(Some(*e), opt_view(*namespace)) == seq![f@],
            None => extension_filters_of(Some(*e), opt_view(*namespace)) == Seq::<RouteFilterView>::empty(),
        },
{
    proof {
        reveal_strlit("vale-gateway.whitefamily.in");
    }
    if !str_equals(&e.group, "vale-gateway.whitefamily.in") {
        return None;
    }
    if str_equals(&e.kind, "StaticResponseFilter") {
        let key = ObjectRef::for_kind(
            &static_response_filter_kind(),
            clone_opt_string(namespace),
            e.name.clone(),
        ).display();
        Some(RouteFilter::ExtStaticResponse(key))
    } else if str_equals(&e.kind, "AccessControlFilter") {
        let key = ObjectRef::for_kind(
            &access_control_filter_kind(),
            clone_opt_string(namespace),
            e.name.clone(),
        ).display();
        Some(RouteFilter::ExtAccessControl(key))
    } else {
        None
    }
}

fn append_filter(out: &mut Vec<RouteFilter>, f: &RouteFilterSpec, namespace: &Option<String>)
    ensures
        filter_views(final(out)@) == filter_views(old(out)@) + filter_outputs(*f, opt_view(*namespace)),
{
    let ghost start = filter_views(out@);
    if let Some(m) = &f.request_header_modifier {
        push_filter(out, RouteFilter::RequestHeaderModifier(convert_header_modifier(m)));
    }
    let ghost after_a = filter_views(out@);
    if let Some(m) = &f.response_header_modifier {
        push_filter(out, RouteFilter::ResponseHeaderModifier(convert_header_modifier(m)));
    }
    let ghost after_b = filter_views(out@);
    if let Some(r) = &f.request_redirect {
        push_filter(out, RouteFilter::RequestRedirect(convert_request_redirect(r)));
    }
    let ghost after_c = filter_views(out@);
    if let Some(u) = &f.url_rewrite {
        push_filter(out, RouteFilter::UrlRewrite(convert_url_rewrite(u)));
    }
    let ghost after_d = filter_views(out@);
    if let Some(e) = &f.extension_ref {
        match extension_filter(e, namespace) {
            Some(x) => push_filter(out, x),
            None => {},
        }
    }
    assert(filter_views(out@) =~= start + filter_outputs(*f, opt_view(*namespace)));
}

/// Converts the filters of a rule, appending what each contributes.
pub fn convert_filters(filters: &Vec<RouteFilterSpec>, namespace: &Option<String>) -> (r: Vec<RouteFilter>)
    ensures
        filter_views(r@) == filters_outputs(filters@, opt_view(*namespace)),
{
    let mut out: Vec<RouteFilter> = Vec::new();
    let mut i: usize = 0;
    let ghost ns = opt_view(*namespace);
    assert(filter_views(out@) =~= Seq::empty());
    while i < filters.len()
        invariant
            i <= filters.len(),
            ns == opt_view(*namespace),
            filter_views(out@) == filters_outputs(filters@.take(i as int), ns),
        decreases filters.len() - i,
    {
        assert(filters@.take(i + 1).drop_last() =~= filters@.take(i as int));
        append_filter(&mut out, &filters[i], namespace);
        i += 1;
    }
    assert(filters@.take(filters.len() as int) =~= filters@);
    out
}

/// A path match as the gateway applies it.
#[derive(Debug, PartialEq, Eq)]
pub enum PathMatch {
    Exact(String),
    Prefix(String),
    Regex(String),
}

/// A header or query parameter match as the gateway applies it.
#[derive(Debug, PartialEq, Eq)]
pub enum ValueMatch {
    Exact { name: String, value: String },
    Regex { name: String, value: String },
}

/// A match as the gateway applies it.
#[derive(Debug, PartialEq, Eq)]
pub struct MatchConfig {
    pub method: Option<HttpMethod>,
    pub path: Option<PathMatch>,
    pub headers: Vec<ValueMatch>,
    pub query_params: Vec<ValueMatch>,
}

/// The model of a [`MatchConfig`].
pub struct MatchConfigView {
    pub method: Option<HttpMethod>,
    pub path: Option<PathMatch>,
    pub headers: Seq<ValueMatch>,
    pub query_params: Seq<ValueMatch>,
}

impl View for MatchConfig {
    type V = MatchConfigView;

    open spec fn view(&self) -> MatchConfigView {
        MatchConfigView {
            method: self.method,
            path: self.path,
            headers: self.headers@,
            query_params: self.query_params@,
        }
    }
}

/// The path match of a rule's path: one of a known type with a value; a
/// path without a type or a value gives none.
pub open spec fn path_match_of(p: Option<PathMatchSpec>) -> Option<PathMatch> {
    match p {
        Some(p) => match (p.type_, p.value) {
            (Some(PathMatchType::Exact), Some(v)) => Some(PathMatch::Exact(v)),
            (Some(PathMatchType::PathPrefix), Some(v)) => Some(PathMatch::Prefix(v)),
            (Some(PathMatchType::RegularExpression), Some(v)) => Some(PathMatch::Regex(v)),
            _ => None,
        },
        None => None,
    }
}

/// The match of a header or query parameter: exact unless it asks for a
/// regular expression.
pub open spec fn value_match_of(m: NameValueMatchSpec) -> ValueMatch {
    match m.type_ {
        Some(ValueMatchType::RegularExpression) => ValueMatch::Regex { name: m.name, value: m.value },
        _ => ValueMatch::Exact { name: m.name, value: m.value },
    }
}

/// The match of a rule's match.
pub open spec fn match_config_of(m: RouteMatchSpec) -> MatchConfigView {
    MatchConfigView {
        method: m.method,
        path: path_match_of(m.path),
        headers: flat(m.headers).map_values(|h: NameValueMatchSpec| value_match_of(h)),
        query_params: flat(m.query_params).map_values(|q: NameValueMatchSpec| value_match_of(q)),
    }
}

fn convert_value_matches(v: &Option<Vec<NameValueMatchSpec>>) -> (r: Vec<ValueMatch>)
    ensures
        r@ == flat(*v).map_values(|h: NameValueMatchSpec| value_match_of(h)),
{
    let mut r: Vec<ValueMatch> = Vec::new();
    match v {
        Some(v) => {
            let mut i: usize = 0;
            while i < v.len()
                invariant
                    i <= v.len(),
                    r@ == v@.take(i as int).map_values(|h: NameValueMatchSpec| value_match_of(h)),
                decreases v.len() - i,
            {
                let h = &v[i];
                let m = match h.type_ {
                    Some(ValueMatchType::RegularExpression) => ValueMatch::Regex {
                        name: h.name.clone(),
                        value: h.value.clone(),
                    },
                    _ => ValueMatch::Exact { name: h.name.clone(), value: h.value.clone() },
                };
                r.push(m);
                i += 1;
                assert(r@ =~= v@.take(i as int).map_values(
                    |h: NameValueMatchSpec| value_match_of(h),
                ));
            }
            assert(v@.take(v.len() as int) =~= v@);
        },
        None => {
            assert(r@ =~= flat(*v).map_values(|h: NameValueMatchSpec| value_match_of(h)));
        },
    }
    r
}

/// Converts a match of a rule.
pub fn convert_match(m: &RouteMatchSpec) -> (r: MatchConfig)
    ensures
        r@ == match_config_of(*m),
{
    let path = match &m.path {
        Some(p) => match (&p.type_, &p.value) {
            (Some(PathMatchType::Exact), Some(v)) => Some(PathMatch::Exact(v.clone())),
            (Some(PathMatchType::PathPrefix), Some(v)) => Some(PathMatch::Prefix(v.clone())),
            (Some(PathMatchType::RegularExpression), Some(v)) => Some(PathMatch::Regex(v.clone())),
            _ => None,
        },
        None => None,
    };
    MatchConfig {
        method: m.method,
        path,
        headers: convert_value_matches(&m.headers),
        query_params: convert_value_matches(&m.query_params),
    }
}

/// The configuration of a rule as the gateway applies it.
#[derive(Debug, PartialEq, Eq)]
pub struct RuleConfig {
    pub id: String,
    pub filters: Vec<RouteFilter>,
    pub matches: Vec<MatchConfig>,
    pub backends: Vec<Backend>,
}

/// The model of a [`RuleConfig`].
pub struct RuleConfigView {
    pub id: Seq<char>,
    pub filters: Seq<RouteFilterView>,
    pub matches: Seq<MatchConfigView>,
    pub backends: Seq<BackendView>,
}

impl View for RuleConfig {
    type V = RuleConfigView;

    open spec fn view(&self) -> RuleConfigView {
        RuleConfigView {
            id: self.id@,
            filters: filter_views(self.filters@),
            matches: self.matches@.map_values(|m: MatchConfig| m@),
            backends: self.backends@.map_values(|b: Backend| b@),
        }
    }
}

/// The identifier of a rule: the gateway's and the route's unique
/// identifiers and the rule's index, separated by colons, when both
/// identifiers are known; `rule-` and the index otherwise.
pub open spec fn rule_id_of(gateway_uid: Option<Seq<char>>, route_uid: Option<Seq<char>>, index: nat) -> Seq<char> {
    match (gateway_uid, route_uid) {
        (Some(g), Some(r)) => g + seq![':'] + r + seq![':'] + decimal(index),
        _ => "rule-"@ + decimal(index),
    }
}

/// Formats a rule identifier from both unique identifiers, when both are
/// known.
pub fn format_rule_id(gateway_uid: &Option<String>, route_uid: &Option<String>, index: usize) -> (r: Option<String>)
    ensures
        match r {
            Some(s) => gateway_uid is Some && route_uid is Some && s@ == rule_id_of(
                opt_view(*gateway_uid),
                opt_view(*route_uid),
                index as nat,
            ),
            None => gateway_uid is None || route_uid is None,
        },
{
    let g = match gateway_uid {
        Some(g) => g,
        None => return None,
    };
    let r = match route_uid {
        Some(r) => r,
        None => return None,
    };
    let mut s = g.clone();
    push_str(&mut s, ":");
    push_str(&mut s, r.as_str());
    push_str(&mut s, ":");
    let digits = format_u64(index as u64);
    push_str(&mut s, digits.as_str());
    proof {
        reveal_strlit(":");
    }
    assert(s@ =~= rule_id_of(opt_view(*gateway_uid), opt_view(*route_uid), index as nat));
    Some(s)
}

/// The identifier of a rule, from both unique identifiers when both are
/// known, from its index otherwise.
pub fn rule_id(gateway_uid: &Option<String>, route_uid: &Option<String>, index: usize) -> (r: String)
    ensures
        r@ == rule_id_of(opt_view(*gateway_uid), opt_view(*route_uid), index as nat),
{
    match format_rule_id(gateway_uid, route_uid, index) {
        Some(s) => s,
        None => {
            let mut s = String::from_str("rule-");
            let digits = format_u64(index as u64);
            push_str(&mut s, digits.as_str());
            proof {
                reveal_strlit("rule-");
            }
            assert(s@ =~= rule_id_of(opt_view(*gateway_uid), opt_view(*route_uid), index as nat));
            s
        },
    }
}

/// The backends of a rule's backend references that are known, in order;
/// references to services without a known backend are skipped.
pub open spec fn rule_backends_of(
    refs: Seq<BackendRefSpec>,
    namespace: Option<Seq<char>>,
    backends: Map<ObjectRefView, Backend>,
) -> Seq<BackendView>
    decreases refs.len(),
{
    if refs.len() == 0 {
        Seq::empty()
    } else {
        let rest = rule_backends_of(refs.drop_last(), namespace, backends);
        let s = backend_service_ref(refs.last(), namespace);
        if backends.dom().contains(s) {
            rest.push(backends[s]@)
        } else {
            rest
        }
    }
}

/// The configuration of a rule of a route.
pub open spec fn rule_config_of(
    rule: RouteRuleSpec,
    index: nat,
    gateway_uid: Option<Seq<char>>,
    route: HttpRoute,
    backends: Map<ObjectRefView, Backend>,
) -> RuleConfigView {
    let ns = opt_view(route.metadata.namespace);
    RuleConfigView {
        id: rule_id_of(gateway_uid, opt_view(route.metadata.uid), index),
        filters: filters_outputs(flat(rule.filters), ns),
        matches: flat(rule.matches).map_values(|m: RouteMatchSpec| match_config_of(m)),
        backends: rule_backends_of(flat(rule.backend_refs), ns, backends),
    }
}

fn convert_rule(
    rule: &RouteRuleSpec,
    index: usize,
    gateway_uid: &Option<String>,
    route: &HttpRoute,
    backends: &RefMap<Backend>,
) -> (r: RuleConfig)
    requires
        backends.wf(),
    ensures
        r@ == rule_config_of(*rule, index as nat, opt_view(*gateway_uid), *route, backends.map()),
{
    let ns = &route.metadata.namespace;
    let id = rule_id(gateway_uid, &route.metadata.uid, index);
    let filters = match &rule.filters {
        Some(f) => convert_filters(f, ns),
        None => {
            let v: Vec<RouteFilter> = Vec::new();
            assert(filter_views(v@) =~= filters_outputs(flat(rule.filters), opt_view(*ns)));
            v
        },
    };
    let mut matches: Vec<MatchConfig> = Vec::new();
    if let Some(ms) = &rule.matches {
        let mut i: usize = 0;
        while i < ms.len()
            invariant
                i <= ms.len(),
                matches@.map_values(|m: MatchConfig| m@) == ms@.take(i as int).map_values(
                    |m: RouteMatchSpec| match_config_of(m),
                ),
            decreases ms.len() - i,
        {
            let c = convert_match(&ms[i]);
            let ghost before = matches@;
            matches.push(c);
            assert(matches@.map_values(|m: MatchConfig| m@) =~= before.map_values(
                |m: MatchConfig| m@,
            ).push(c@));
            assert(ms@.take(i + 1) =~= ms@.take(i as int).push(ms@[i as int]));
            assert(ms@.take(i + 1).map_values(|m: RouteMatchSpec| match_config_of(m)) =~= ms@.take(
                i as int,
            ).map_values(|m: RouteMatchSpec| match_config_of(m)).push(match_config_of(ms@[i as int])));
            i += 1;
        }
        assert(ms@.take(ms.len() as int) =~= ms@);
    }
    assert(matches@.map_values(|m: MatchConfig| m@) =~= flat(rule.matches).map_values(
        |m: RouteMatchSpec| match_config_of(m),
    ));
    let mut targets: Vec<Backend> = Vec::new();
    let ghost refs = flat(rule.backend_refs);
    if let Some(rs) = &rule.backend_refs {
        let mut i: usize = 0;
        while i < rs.len()
            invariant
                i <= rs.len(),
                backends.wf(),
                refs == rs@,
                targets@.map_values(|b: Backend| b@) == rule_backends_of(
                    refs.take(i as int),
                    opt_view(*ns),
                    backends.map(),
                ),
            decreases rs.len() - i,
        {
            assert(refs.take(i + 1).drop_last() =~= refs.take(i as int));
            let b = &rs[i];
            let service_ref = ObjectRef::for_kind(
                &crate::kinds::service_kind(),
                match &b.namespace {
                    Some(n) => Some(n.clone()),
                    None => clone_opt_string(ns),
                },
                b.name.clone(),
            );
            proof {
                reveal_strlit("");
            }
            assert(service_ref@ == backend_service_ref(*b, opt_view(*ns)));
            match backends.get(&service_ref) {
                Some(backend) => {
                    let ghost before = targets@;
                    targets.push(backend.clone());
                    assert(targets@.map_values(|b: Backend| b@) =~= before.map_values(
                        |b: Backend| b@,
                    ).push(backend@));
                },
                None => {},
            }
            i += 1;
        }
        assert(refs.take(rs.len() as int) =~= refs);
    } else {
        assert(targets@.map_values(|b: Backend| b@) =~= rule_backends_of(
            refs,
            opt_view(*ns),
            backends.map(),
        ));
    }
    RuleConfig { id, filters, matches, backends: targets }
}

/// The routing configuration of an HTTP route as the gateway applies it.
#[derive(Debug, PartialEq, Eq)]
pub struct HttpRouteConfig {
    pub host_headers: Vec<HostnameMatch>,
    pub rules: Vec<RuleConfig>,
}

/// The model of an [`HttpRouteConfig`].
pub struct HttpRouteConfigView {
    pub host_headers: Seq<HostnameMatchView>,
    pub rules: Seq<RuleConfigView>,
}

impl View for HttpRouteConfig {
    type V = HttpRouteConfigView;

    open spec fn view(&self) -> HttpRouteConfigView {
        HttpRouteConfigView {
            host_headers: self.host_headers@.map_values(|h: HostnameMatch| h@),
            rules: self.rules@.map_values(|r: RuleConfig| r@),
        }
    }
}

/// The host header matches of a route's hostnames, in order; empty
/// hostnames are skipped.
pub open spec fn host_headers_of(hostnames: Seq<String>) -> Seq<HostnameMatchView>
    decreases hostnames.len(),
{
    if hostnames.len() == 0 {
        Seq::empty()
    } else {
        let rest = host_headers_of(hostnames.drop_last());
        match hostname_match_of(Some(hostnames.last()@)) {
            Some(m) => rest.push(m),
            None => rest,
        }
    }
}

/// The configurations of the first rules of a route, each with its index.
pub open spec fn rules_config_of(
    rules: Seq<RouteRuleSpec>,
    gateway_uid: Option<Seq<char>>,
    route: HttpRoute,
    backends: Map<ObjectRefView, Backend>,
) -> Seq<RuleConfigView> {
    Seq::new(
        rules.len(),
        |i: int| rule_config_of(rules[i], i as nat, gateway_uid, route, backends),
    )
}

/// The routing configuration of a route.
pub open spec fn route_config_of(
    route: HttpRoute,
    gateway_uid: Option<Seq<char>>,
    backends: Map<ObjectRefView, Backend>,
) -> HttpRouteConfigView {
    HttpRouteConfigView {
        host_headers: host_headers_of(flat(route.data.hostnames)),
        rules: rules_config_of(flat(route.data.rules), gateway_uid, route, backends),
    }
}

/// Whether some parent reference of a route names the gateway: the same name,
/// and the same namespace, where a parent reference without one names the
/// route's namespace and a missing namespace counts as empty.
pub open spec fn references_gateway(route: HttpRoute, gateway: ObjectRefView) -> bool {
    let parents = flat(route.data.parent_refs);
    let gateway_namespace = match gateway.namespace {
        Some(n) => n,
        None => Seq::empty(),
    };
    exists|i: int|
        0 <= i < parents.len() && #[trigger] parents[i].name@ == gateway.name && (match parents[i].namespace {
            Some(n) => n@,
            None => match route.metadata.namespace {
                Some(n) => n@,
                None => Seq::empty(),
            },
        }) == gateway_namespace
}

fn route_references_gateway(route: &HttpRoute, gateway_ref: &ObjectRef) -> (b: bool)
    ensures
        b == references_gateway(*route, gateway_ref@),
{
    let parents = match &route.data.parent_refs {
        Some(p) => p,
        None => return false,
    };
    let gateway_namespace = match gateway_ref.namespace() {
        Some(n) => n.clone(),
        None => String::new(),
    };
    let route_namespace = match &route.metadata.namespace {
        Some(n) => n.clone(),
        None => String::new(),
    };
    let mut i: usize = 0;
    while i < parents.len()
        invariant
            i <= parents.len(),
            flat(route.data.parent_refs) == parents@,
            gateway_namespace@ == (match gateway_ref@.namespace {
                Some(n) => n,
                None => Seq::<char>::empty(),
            }),
            route_namespace@ == (match route.metadata.namespace {
                Some(n) => n@,
                None => Seq::<char>::empty(),
            }),
            forall|j: int|
                0 <= j < i ==> !(#[trigger] parents@[j].name@ == gateway_ref@.name && (match parents@[j].namespace {
                    Some(n) => n@,
                    None => route_namespace@,
                }) == gateway_namespace@),
        decreases parents.len() - i,
    {
        let p = &parents[i];
        let ns = match &p.namespace {
            Some(n) => n,
            None => &route_namespace,
        };
        if p.name.eq(gateway_ref.name()) && ns.eq(&gateway_namespace) {
            return true;
        }
        i += 1;
    }
    false
}

/// The configurations of the routes of a list that reference the gateway.
pub open spec fn list_configs_of(
    routes: Seq<Arc<HttpRoute>>,
    gateway: ObjectRefView,
    gateway_uid: Option<Seq<char>>,
    backends: Map<ObjectRefView, Backend>,
) -> Seq<HttpRouteConfigView>
    decreases routes.len(),
{
    if routes.len() == 0 {
        Seq::empty()
    } else {
        let rest = list_configs_of(routes.drop_last(), gateway, gateway_uid, backends);
        let route = *routes.last();
        if references_gateway(route, gateway) {
            rest.push(route_config_of(route, gateway_uid, backends))
        } else {
            rest
        }
    }
}

/// The configurations of the routes of all lists that reference the gateway,
/// list by list.
pub open spec fn lists_configs_of(
    lists: Seq<(ObjectRefView, Vec<Arc<HttpRoute>>)>,
    gateway: ObjectRefView,
    gateway_uid: Option<Seq<char>>,
    backends: Map<ObjectRefView, Backend>,
) -> Seq<HttpRouteConfigView>
    decreases lists.len(),
{
    if lists.len() == 0 {
        Seq::empty()
    } else {
        lists_configs_of(lists.drop_last(), gateway, gateway_uid, backends) + list_configs_of(
            lists.last().1@,
            gateway,
            gateway_uid,
            backends,
        )
    }
}

/// The views of a list of route configurations.
pub open spec fn route_config_views(s: Seq<HttpRouteConfig>) -> Seq<HttpRouteConfigView> {
    s.map_values(|c: HttpRouteConfig| c@)
}

fn convert_route(route: &HttpRoute, gateway_uid: &Option<String>, backends: &RefMap<Backend>) -> (r: HttpRouteConfig)
    requires
        backends.wf(),
    ensures
        r@ == route_config_of(*route, opt_view(*gateway_uid), backends.map()),
{
    let mut host_headers: Vec<HostnameMatch> = Vec::new();
    let ghost hostnames = flat(route.data.hostnames);
    if let Some(hs) = &route.data.hostnames {
        let mut i: usize = 0;
        while i < hs.len()
            invariant
                i <= hs.len(),
                hostnames == hs@,
                host_headers@.map_values(|h: HostnameMatch| h@) == host_headers_of(
                    hostnames.take(i as int),
                ),
            decreases hs.len() - i,
        {
            assert(hostnames.take(i + 1).drop_last() =~= hostnames.take(i as int));
            match map_hostname_match_to_type(Some(&hs[i])) {
                Some(m) => {
                    let ghost before = host_headers@;
                    host_headers.push(m);
                    assert(host_headers@.map_values(|h: HostnameMatch| h@) =~= before.map_values(
                        |h: HostnameMatch| h@,
                    ).push(host_headers@.last()@));
                },
                None => {},
            }
            i += 1;
        }
        assert(hostnames.take(hs.len() as int) =~= hostnames);
    } else {
        assert(host_headers@.map_values(|h: HostnameMatch| h@) =~= host_headers_of(hostnames));
    }
    let mut rules: Vec<RuleConfig> = Vec::new();
    let ghost rs = flat(route.data.rules);
    let ghost uid = opt_view(*gateway_uid);
    if let Some(rv) = &route.data.rules {
        let mut i: usize = 0;
        while i < rv.len()
            invariant
                i <= rv.len(),
                backends.wf(),
                rs == rv@,
                uid == opt_view(*gateway_uid),
                rules@.map_values(|r: RuleConfig| r@) == rules_config_of(
                    rs.take(i as int),
                    uid,
                    *route,
                    backends.map(),
                ),
            decreases rv.len() - i,
        {
            let c = convert_rule(&rv[i], i, gateway_uid, route, backends);
            let ghost before = rules@;
            rules.push(c);
            assert(rules@.map_values(|r: RuleConfig| r@) =~= before.map_values(
                |r: RuleConfig| r@,
            ).push(c@));
            assert(rules_config_of(rs.take(i + 1), uid, *route, backends.map()) =~= rules_config_of(
                rs.take(i as int),
                uid,
                *route,
                backends.map(),
            ).push(rule_config_of(rs[i as int], i as nat, uid, *route, backends.map())));
            i += 1;
        }
        assert(rs.take(rv.len() as int) =~= rs);
    } else {
        assert(rules@.map_values(|r: RuleConfig| r@) =~= rules_config_of(
            rs,
            uid,
            *route,
            backends.map(),
        ));
    }
    HttpRouteConfig { host_headers, rules }
}

/// The routing configurations that a gateway receives: for each list of
/// routes, in order, each route that references the gateway.
pub fn process_http_routes(
    gateway_ref: &ObjectRef,
    gateway_meta: &ObjectMeta,
    http_routes: &RefMap<Vec<Arc<HttpRoute>>>,
    backends: &RefMap<Backend>,
) -> (r: Vec<HttpRouteConfig>)
    requires
        backends.wf(),
    ensures
        route_config_views(r@) == lists_configs_of(
            http_routes.order(),
            gateway_ref@,
            opt_view(gateway_meta.uid),
            backends.map(),
        ),
{
    let lists = http_routes.entries();
    let ghost all = http_routes.order();
    let ghost uid = opt_view(gateway_meta.uid);
    let mut out: Vec<HttpRouteConfig> = Vec::new();
    let mut i: usize = 0;
    assert(route_config_views(out@) =~= Seq::empty());
    while i < lists.len()
        invariant
            i <= lists.len(),
            backends.wf(),
            ref_entries(lists@) == all,
            uid == opt_view(gateway_meta.uid),
            route_config_views(out@) == lists_configs_of(
                all.take(i as int),
                gateway_ref@,
                uid,
                backends.map(),
            ),
        decreases lists.len() - i,
    {
        assert(all.take(i + 1).drop_last() =~= all.take(i as int));
        let routes = &lists[i].1;
        assert(all[i as int].1 == *routes);
        let ghost start = route_config_views(out@);
        let mut j: usize = 0;
        while j < routes.len()
            invariant
                j <= routes.len(),
                backends.wf(),
                uid == opt_view(gateway_meta.uid),
                route_config_views(out@) == start + list_configs_of(
                    routes@.take(j as int),
                    gateway_ref@,
                    uid,
                    backends.map(),
                ),
            decreases routes.len() - j,
        {
            assert(routes@.take(j + 1).drop_last() =~= routes@.take(j as int));
            let route: &Arc<HttpRoute> = &routes[j];
            if route_references_gateway(route, gateway_ref) {
                let c = convert_route(route, &gateway_meta.uid, backends);
                let ghost before = out@;
                out.push(c);
                assert(route_config_views(out@) =~= route_config_views(before).push(c@));
            }
            j += 1;
        }
        assert(routes@.take(routes.len() as int) =~= routes@);
        i += 1;
    }
    assert(all.take(lists.len() as int) =~= all);
    out
}

/// A gateway serves only routes that name it: when no parent reference of
/// any of the routes has the gateway's name, the gateway gets no route
/// configuration from them, whatever namespaces they are in.
pub proof fn law_unnamed_gateway_gets_no_routes(
    routes: Seq<Arc<HttpRoute>>,
    gateway: ObjectRefView,
    gateway_uid: Option<Seq<char>>,
    backends: Map<ObjectRefView, Backend>,
)
    requires
        forall|k: int, i: int|
            0 <= k < routes.len() && 0 <= i < parents_of(routes[k]).len()
                ==> #[trigger] parents_of(routes[k])[i].name@ != gateway.name,
    ensures
        list_configs_of(routes, gateway, gateway_uid, backends).len() == 0,
    decreases routes.len(),
{
    if routes.len() > 0 {
        let rest = routes.drop_last();
        assert forall|k: int, i: int|
            0 <= k < rest.len() && 0 <= i < parents_of(rest[k]).len()
                implies #[trigger] parents_of(rest[k])[i].name@ != gateway.name by {
            assert(rest[k] == routes[k]);
        }
        law_unnamed_gateway_gets_no_routes(rest, gateway, gateway_uid, backends);
        let last = routes.len() - 1;
        assert(!references_gateway(*routes[last], gateway)) by {
            assert forall|i: int| 0 <= i < parents_of(routes[last]).len() implies
                #[trigger] parents_of(routes[last])[i].name@ != gateway.name by {}
        }
    }
}

/// The namespace in which a parent reference of a route looks for its
/// gateway: its own, else the route's, an absent one read as empty.
pub open spec fn parent_namespace(p: ParentRefSpec, route: Arc<HttpRoute>) -> Seq<char> {
    match p.namespace {
        Some(n) => n@,
        None => match route.metadata.namespace {
            Some(n) => n@,
            None => Seq::empty(),
        },
    }
}

/// A gateway serves only routes that point into its namespace: when every
/// parent reference of the routes looks in another namespace than the
/// gateway's, whatever names they give, the gateway gets no route
/// configuration from them.
pub proof fn law_other_namespace_gets_no_routes(
    routes: Seq<Arc<HttpRoute>>,
    gateway: ObjectRefView,
    gateway_namespace: Seq<char>,
    gateway_uid: Option<Seq<char>>,
    backends: Map<ObjectRefView, Backend>,
)
    requires
        gateway.namespace == Some(gateway_namespace),
        forall|k: int, i: int|
            0 <= k < routes.len() && 0 <= i < parents_of(routes[k]).len()
                ==> parent_namespace(#[trigger] parents_of(routes[k])[i], routes[k]) != gateway_namespace,
    ensures
        list_configs_of(routes, gateway, gateway_uid, backends).len() == 0,
    decreases routes.len(),
{
    if routes.len() > 0 {
        let rest = routes.drop_last();
        assert forall|k: int, i: int|
            0 <= k < rest.len() && 0 <= i < parents_of(rest[k]).len()
                implies parent_namespace(#[trigger] parents_of(rest[k])[i], rest[k]) != gateway_namespace by {
            assert(rest[k] == routes[k]);
        }
        law_other_namespace_gets_no_routes(rest, gateway, gateway_namespace, gateway_uid, backends);
        let last = routes.len() - 1;
        assert(!references_gateway(*routes[last], gateway)) by {
            assert forall|i: int| 0 <= i < parents_of(routes[last]).len() implies
                parent_namespace(#[trigger] parents_of(routes[last])[i], routes[last]) != gateway_namespace by {}
        }
    }
}

/// A route one of whose parent references has a gateway's name and, given
/// or taken from the route, the gateway's namespace adds its configuration
/// to that gateway's, after those of the routes before it.
pub proof fn law_named_gateway_gets_the_route(
    routes: Seq<Arc<HttpRoute>>,
    route: Arc<HttpRoute>,
    i: int,
    gateway: ObjectRefView,
    gateway_uid: Option<Seq<char>>,
    backends: Map<ObjectRefView, Backend>,
)
    requires
        0 <= i < parents_of(route).len(),
        parents_of(route)[i].name@ == gateway.name,
        gateway.namespace == Some(parent_namespace(parents_of(route)[i], route)),
    ensures
        list_configs_of(routes.push(route), gateway, gateway_uid, backends) == list_configs_of(
            routes,
            gateway,
            gateway_uid,
            backends,
        ).push(route_config_of(*route, gateway_uid, backends)),
{
    assert(routes.push(route).drop_last() =~= routes);
    assert(parents_of(route)[i].name@ == gateway.name);
    assert(references_gateway(*route, gateway));
}

} // verus!
