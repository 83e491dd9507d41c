//! REST endpoints of pages: methods, input locations, paths and the endpoint table.

use vstd::prelude::*;
use crate::text::{text_eq, decimal_seq, decimal_text};
use crate::options::{SelectOption, SelectOptionView, option_view, options_view, push_option};
use vstd::string::StrSliceExecFns;
use vstd::string::StringExecFns;

verus! {

/// HTTP method of an endpoint.
#[derive(Clone, Copy, Debug, PartialEq, Eq, Structural)]
pub enum RestMethod {
    Get,
    Post,
    Put,
    Patch,
    Delete,
}

pub open spec fn rest_method_key_spec(method: RestMethod) -> Seq<char> {
    match method {
        RestMethod::Get => "GET"@,
        RestMethod::Post => "POST"@,
        RestMethod::Put => "PUT"@,
        RestMethod::Patch => "PATCH"@,
        RestMethod::Delete => "DELETE"@,
    }
}

/// The HTTP name of a method.
pub fn rest_method_key(method: RestMethod) -> (key: &'static str)
    ensures
        key@ == rest_method_key_spec(method),
{
    match method {
        RestMethod::Get => "GET",
        RestMethod::Post => "POST",
        RestMethod::Put => "PUT",
        RestMethod::Patch => "PATCH",
        RestMethod::Delete => "DELETE",
    }
}

impl RestMethod {
    /// The HTTP name of the method.
    pub fn as_str(self) -> (name: &'static str)
        ensures
            name@ == rest_method_key_spec(self),
    {
        rest_method_key(self)
    }
}

pub open spec fn rest_method_from_key_spec(key: Seq<char>) -> RestMethod {
    if key == "GET"@ {
        RestMethod::Get
    } else if key == "PUT"@ {
        RestMethod::Put
    } else if key == "PATCH"@ {
        RestMethod::Patch
    } else if key == "DELETE"@ {
        RestMethod::Delete
    } else {
        RestMethod::Post
    }
}

/// Reads a method from its HTTP name; any other text gives `POST`.
pub fn rest_method_from_key(key: &str) -> (value: RestMethod)
    ensures
        value == rest_method_from_key_spec(key@),
{
    if text_eq(key, "GET") {
        RestMethod::Get
    } else if text_eq(key, "PUT") {
        RestMethod::Put
    } else if text_eq(key, "PATCH") {
        RestMethod::Patch
    } else if text_eq(key, "DELETE") {
        RestMethod::Delete
    } else {
        RestMethod::Post
    }
}

/// Every method is read back from its HTTP name.
pub proof fn rest_method_key_round_trip(value: RestMethod)
    ensures
        rest_method_from_key_spec(rest_method_key_spec(value)) == value,
{
    reveal_strlit("GET");
    assert("GET"@ =~= seq!['G', 'E', 'T']);
    reveal_strlit("POST");
    assert("POST"@ =~= seq!['P', 'O', 'S', 'T']);
    reveal_strlit("PUT");
    assert("PUT"@ =~= seq!['P', 'U', 'T']);
    reveal_strlit("PATCH");
    assert("PATCH"@ =~= seq!['P', 'A', 'T', 'C', 'H']);
    reveal_strlit("DELETE");
    assert("DELETE"@ =~= seq!['D', 'E', 'L', 'E', 'T', 'E']);
}

pub open spec fn rest_method_options_spec(current: RestMethod) -> Seq<SelectOptionView> {
    seq![
        option_view("GET"@, "GET"@, current == RestMethod::Get, false),
        option_view("POST"@, "POST"@, current == RestMethod::Post, false),
        option_view("PUT"@, "PUT"@, current == RestMethod::Put, false),
        option_view("PATCH"@, "PATCH"@, current == RestMethod::Patch, false),
        option_view("DELETE"@, "DELETE"@, current == RestMethod::Delete, false),
    ]
}

/// The methods offered by the endpoint editor, the current one selected.
pub fn rest_method_options(current: RestMethod) -> (options: Vec<SelectOption>)
    ensures
        options_view(options@) == rest_method_options_spec(current),
{
    let mut options: Vec<SelectOption> = Vec::new();
    push_option(&mut options, "GET", "GET", current == RestMethod::Get, false);
    push_option(&mut options, "POST", "POST", current == RestMethod::Post, false);
    push_option(&mut options, "PUT", "PUT", current == RestMethod::Put, false);
    push_option(&mut options, "PATCH", "PATCH", current == RestMethod::Patch, false);
    push_option(&mut options, "DELETE", "DELETE", current == RestMethod::Delete, false);
    assert(options_view(options@) =~= rest_method_options_spec(current));
    options
}

pub open spec fn method_class_spec(method: RestMethod) -> Seq<char> {
    match method {
        RestMethod::Get => "aio-http-method aio-http-method--get"@,
        RestMethod::Post => "aio-http-method aio-http-method--post"@,
        RestMethod::Put => "aio-http-method aio-http-method--write"@,
        RestMethod::Patch => "aio-http-method aio-http-method--write"@,
        RestMethod::Delete => "aio-http-method aio-http-method--delete"@,
    }
}

/// The style class of a method badge; writes share one.
pub fn method_class(method: RestMethod) -> (key: &'static str)
    ensures
        key@ == method_class_spec(method),
{
    match method {
        RestMethod::Get => "aio-http-method aio-http-method--get",
        RestMethod::Post => "aio-http-method aio-http-method--post",
        RestMethod::Put => "aio-http-method aio-http-method--write",
        RestMethod::Patch => "aio-http-method aio-http-method--write",
        RestMethod::Delete => "aio-http-method aio-http-method--delete",
    }
}

/// Where an endpoint input is carried.
#[derive(Clone, Copy, Debug, PartialEq, Eq, Structural)]
pub enum EndpointInputLocation {
    Path,
    Query,
    Header,
    Body,
}

pub open spec fn endpoint_location_key_spec(location: EndpointInputLocation) -> Seq<char> {
    match location {
        EndpointInputLocation::Path => "path"@,
        EndpointInputLocation::Query => "query"@,
        EndpointInputLocation::Header => "header"@,
        EndpointInputLocation::Body => "body"@,
    }
}

/// The key of an input location.
pub fn endpoint_location_key(location: EndpointInputLocation) -> (key: &'static str)
    ensures
        key@ == endpoint_location_key_spec(location),
{
    match location {
        EndpointInputLocation::Path => "path",
        EndpointInputLocation::Query => "query",
        EndpointInputLocation::Header => "header",
        EndpointInputLocation::Body => "body",
    }
}

pub open spec fn endpoint_location_from_key_spec(key: Seq<char>) -> EndpointInputLocation {
    if key == "path"@ {
        EndpointInputLocation::Path
    } else if key == "query"@ {
        EndpointInputLocation::Query
    } else if key == "header"@ {
        EndpointInputLocation::Header
    } else {
        EndpointInputLocation::Body
    }
}

/// Reads an input location from its key; any other key gives `Body`.
pub fn endpoint_location_from_key(key: &str) -> (value: EndpointInputLocation)
    ensures
        value == endpoint_location_from_key_spec(key@),
{
    if text_eq(key, "path") {
        EndpointInputLocation::Path
    } else if text_eq(key, "query") {
        EndpointInputLocation::Query
    } else if text_eq(key, "header") {
        EndpointInputLocation::Header
    } else {
        EndpointInputLocation::Body
    }
}

/// Every input location is read back from its key.
pub proof fn endpoint_location_key_round_trip(value: EndpointInputLocation)
    ensures
        endpoint_location_from_key_spec(endpoint_location_key_spec(value)) == value,
{
    reveal_strlit("path");
    assert("path"@ =~= seq!['p', 'a', 't', 'h']);
    reveal_strlit("query");
    assert("query"@ =~= seq!['q', 'u', 'e', 'r', 'y']);
    reveal_strlit("header");
    assert("header"@ =~= seq!['h', 'e', 'a', 'd', 'e', 'r']);
    reveal_strlit("body");
    assert("body"@ =~= seq!['b', 'o', 'd', 'y']);
}

pub open spec fn endpoint_location_options_spec(current: EndpointInputLocation) -> Seq<SelectOptionView> {
    seq![
        option_view("path"@, "Path"@, current == EndpointInputLocation::Path, false),
        option_view("query"@, "Query"@, current == EndpointInputLocation::Query, false),
        option_view("header"@, "Header"@, current == EndpointInputLocation::Header, false),
        option_view("body"@, "Body"@, current == EndpointInputLocation::Body, false),
    ]
}

/// The input locations offered by the endpoint editor, the current one selected.
pub fn endpoint_location_options(current: EndpointInputLocation) -> (options: Vec<SelectOption>)
    ensures
        options_view(options@) == endpoint_location_options_spec(current),
{
    let mut options: Vec<SelectOption> = Vec::new();
    push_option(&mut options, "path", "Path", current == EndpointInputLocation::Path, false);
    push_option(&mut options, "query", "Query", current == EndpointInputLocation::Query, false);
    push_option(&mut options, "header", "Header", current == EndpointInputLocation::Header, false);
    push_option(&mut options, "body", "Body", current == EndpointInputLocation::Body, false);
    assert(options_view(options@) =~= endpoint_location_options_spec(current));
    options
}

/// Where an endpoint of a page comes from.
#[derive(Clone, Copy, Debug, PartialEq, Eq, Structural)]
pub enum PageEndpointSource {
    BuiltIn,
    Convention,
}

/// Whether a `::` starts at `i` in `s`.
pub open spec fn separator_at(s: Seq<char>, i: int) -> bool {
    0 <= i && i + 1 < s.len() && s[i] == ':' && s[i + 1] == ':'
}

/// The start of the last `::` in `s`, if any.
pub open spec fn last_separator(s: Seq<char>) -> Option<int> {
    if exists|i: int| #[trigger] separator_at(s, i) {
        Some(choose|i: int| #[trigger] separator_at(s, i) && forall|j: int| i < j ==> !#[trigger] separator_at(s, j))
    } else {
        None
    }
}

/// The last segment of a provider key: what follows its last `::`, or the whole key.
pub open spec fn short_provider_key_spec(s: Seq<char>) -> Seq<char> {
    match last_separator(s) {
        Some(i) => s.skip(i + 2),
        None => s,
    }
}

/// The last segment of a provider key.
pub fn short_provider_key(provider_key: &str) -> (short: &str)
    ensures
        short@ == short_provider_key_spec(provider_key@),
{
    let n = provider_key.unicode_len();
    let ghost s = provider_key@;
    if n < 2 {
        assert(!exists|i: int| #[trigger] separator_at(s, i));
        return provider_key;
    }
    let mut i: usize = n - 1;
    while i > 0
        invariant
            n == s.len(),
            n >= 2,
            s == provider_key@,
            0 <= i <= n - 1,
            forall|j: int| i <= j ==> !#[trigger] separator_at(s, j),
        decreases i,
    {
        let k = i - 1;
        if provider_key.get_char(k) == ':' && provider_key.get_char(k + 1) == ':' {
            proof {
                let w = k as int;
                assert(separator_at(s, w) && forall|j: int| w < j ==> !#[trigger] separator_at(s, j));
                let c = choose|i: int| #[trigger] separator_at(s, i) && forall|j: int| i < j ==> !#[trigger] separator_at(s, j);
                if c < w {
                    assert(separator_at(s, w));
                } else if c > w {
                    assert(separator_at(s, c));
                }
                assert(c == w);
            }
            return provider_key.substring_char(k + 2, n);
        }
        i = k;
    }
    assert(!separator_at(s, 0));
    assert(!exists|i: int| #[trigger] separator_at(s, i));
    provider_key
}

/// The path of the `k`-th custom endpoint of a page.
pub open spec fn custom_endpoint_path(page_name: Seq<char>, k: nat) -> Seq<char> {
    "/api/"@ + page_name + "/custom-endpoint-"@ + decimal_seq(k)
}

pub proof fn lemma_custom_endpoint_path_injective(page_name: Seq<char>, a: nat, b: nat)
    requires
        custom_endpoint_path(page_name, a) == custom_endpoint_path(page_name, b),
    ensures
        a == b,
{
    let prefix = "/api/"@ + page_name + "/custom-endpoint-"@;
    assert(custom_endpoint_path(page_name, a).skip(prefix.len() as int) =~= decimal_seq(a));
    assert(custom_endpoint_path(page_name, b).skip(prefix.len() as int) =~= decimal_seq(b));
    crate::text::decimal_seq_injective(a, b);
}

/// The index whose path a taken path is, if any.
pub open spec fn taken_index(page_name: Seq<char>, path: Seq<char>) -> int {
    (choose|k: nat| custom_endpoint_path(page_name, k) == path) as int
}

pub open spec fn taken_indices(page_name: Seq<char>, paths: Seq<Seq<char>>, n: int) -> Set<int>
    decreases n,
{
    if n <= 0 {
        Set::empty()
    } else {
        taken_indices(page_name, paths, n - 1).insert(taken_index(page_name, paths[n - 1]))
    }
}

pub proof fn lemma_taken_indices(page_name: Seq<char>, paths: Seq<Seq<char>>, n: int)
    requires
        0 <= n <= paths.len(),
    ensures
        taken_indices(page_name, paths, n).finite(),
        taken_indices(page_name, paths, n).len() <= n,
        forall|i: int, k: nat|
            #![trigger paths[i], custom_endpoint_path(page_name, k)]
            0 <= i < n && paths[i] == custom_endpoint_path(page_name, k) ==> taken_indices(page_name, paths, n).contains(k as int),
    decreases n,
{
    if n > 0 {
        lemma_taken_indices(page_name, paths, n - 1);
        assert forall|i: int, k: nat|
            #![trigger paths[i], custom_endpoint_path(page_name, k)]
            0 <= i < n && paths[i] == custom_endpoint_path(page_name, k) implies taken_indices(page_name, paths, n).contains(
                k as int,
            ) by {
            if i == n - 1 {
                let t = choose|t: nat| custom_endpoint_path(page_name, t) == paths[i];
                lemma_custom_endpoint_path_injective(page_name, t, k);
            }
        }
    }
}

/// Some path among the next `count + 1` is not taken by any of `count` paths.
pub proof fn lemma_free_path_exists(page_name: Seq<char>, paths: Seq<Seq<char>>)
    ensures
        exists|k: nat|
            paths.len() + 1 <= k <= 2 * paths.len() + 1 && !paths.contains(#[trigger] custom_endpoint_path(page_name, k)),
{
    let n = paths.len() as int;
    lemma_taken_indices(page_name, paths, n);
    let taken = taken_indices(page_name, paths, n);
    let range = vstd::set_lib::set_int_range(n + 1, 2 * n + 2);
    vstd::set_lib::lemma_int_range(n + 1, 2 * n + 2);
    if forall|k: int| n + 1 <= k <= 2 * n + 1 ==> taken.contains(k) {
        assert(range.subset_of(taken));
        vstd::set_lib::lemma_len_subset(range, taken);
        assert(false);
    }
    let k = choose|k: int| n + 1 <= k <= 2 * n + 1 && !taken.contains(k);
    if paths.contains(custom_endpoint_path(page_name, k as nat)) {
        let i = choose|i: int| 0 <= i < paths.len() && paths[i] == custom_endpoint_path(page_name, k as nat);
        assert(taken.contains(k));
    }
}

pub open spec fn texts_view(ts: Seq<String>) -> Seq<Seq<char>> {
    ts.map_values(|t: String| t@)
}

fn path_taken(paths: &[String], path: &String) -> (taken: bool)
    ensures
        taken == texts_view(paths@).contains(path@),
{
    let mut i: usize = 0;
    while i < paths.len()
        invariant
            i <= paths.len(),
            forall|j: int| 0 <= j < i ==> paths@[j]@ != path@,
        decreases paths.len() - i,
    {
        if text_eq(paths[i].as_str(), path.as_str()) {
            assert(texts_view(paths@)[i as int] == path@);
            return true;
        }
        i = i + 1;
    }
    assert(!texts_view(paths@).contains(path@)) by {
        if texts_view(paths@).contains(path@) {
            let j = choose|j: int| 0 <= j < texts_view(paths@).len() && texts_view(paths@)[j] == path@;
            assert(paths@[j]@ == path@);
        }
    }
    false
}

fn endpoint_path(page_name: &str, k: u128) -> (path: String)
    ensures
        path@ == custom_endpoint_path(page_name@, k as nat),
{
    let mut path = String::new();
    path.append("/api/");
    path.append(page_name);
    path.append("/custom-endpoint-");
    let digits = decimal_text(k);
    path.append(digits.as_str());
    path
}

/// The path of a new custom endpoint of a page: the first one, counting from the number of
/// endpoints plus one, that no endpoint uses.
pub fn next_endpoint_path(page_name: &str, paths: &[String]) -> (path: String)
    ensures
        exists|k: nat|
            paths@.len() + 1 <= k && path@ == #[trigger] custom_endpoint_path(page_name@, k) && !texts_view(paths@).contains(path@)
                && forall|j: nat| paths@.len() + 1 <= j < k ==> texts_view(paths@).contains(custom_endpoint_path(page_name@, j)),
{
    proof {
        lemma_free_path_exists(page_name@, texts_view(paths@));
    }
    let ghost bound = choose|k: nat|
        paths@.len() + 1 <= k <= 2 * paths@.len() + 1 && !texts_view(paths@).contains(#[trigger] custom_endpoint_path(page_name@, k));
    let mut index: u128 = paths.len() as u128 + 1;
    loop
        invariant
            paths@.len() + 1 <= index <= bound,
            bound <= 2 * paths@.len() + 1,
            paths@.len() <= usize::MAX,
            !texts_view(paths@).contains(custom_endpoint_path(page_name@, bound)),
            forall|j: nat| paths@.len() + 1 <= j < index ==> texts_view(paths@).contains(custom_endpoint_path(page_name@, j)),
        decreases bound - index,
    {
        let path = endpoint_path(page_name, index);
        if !path_taken(paths, &path) {
            return path;
        }
        proof {
            if index == bound {
                assert(false);
            }
        }
        index = index + 1;
    }
}

/// A block of table cells shown as one: from `row` of column `column`, `rows` rows and
/// `columns` columns.
pub struct TableSpan {
    pub row: usize,
    pub column: String,
    pub rows: usize,
    pub columns: usize,
}

/// The end of the run of equal sources that starts at `start`.
pub open spec fn run_end(sources: Seq<PageEndpointSource>, start: int, end: int) -> int
    decreases sources.len() - end,
{
    if end >= sources.len() || sources[end] != sources[start] {
        end
    } else {
        run_end(sources, start, end + 1)
    }
}

/// The runs of two or more equal sources from `start` on, as (first row, row count).
pub open spec fn source_runs(sources: Seq<PageEndpointSource>, start: int) -> Seq<(int, int)>
    decreases sources.len() - start,
{
    if start >= sources.len() || start < 0 {
        Seq::empty()
    } else {
        let end = run_end(sources, start, start + 1);
        (if end - start > 1 {
            seq![(start, end - start)]
        } else {
            Seq::empty()
        }) + if start < end <= sources.len() {
            source_runs(sources, end)
        } else {
            Seq::empty()
        }
    }
}

pub proof fn lemma_run_end(sources: Seq<PageEndpointSource>, start: int, end: int)
    requires
        0 <= start < end <= sources.len(),
    ensures
        end <= run_end(sources, start, end) <= sources.len(),
    decreases sources.len() - end,
{
    if end < sources.len() && sources[end] == sources[start] {
        lemma_run_end(sources, start, end + 1);
    }
}

pub open spec fn spans_view(spans: Seq<TableSpan>) -> Seq<(int, int)> {
    spans.map_values(|s: TableSpan| (s.row as int, s.rows as int))
}

/// The cells of the source column to merge: each run of two or more rows with the same source.
pub fn endpoint_source_spans(sources: &[PageEndpointSource]) -> (spans: Vec<TableSpan>)
    ensures
        spans_view(spans@) == source_runs(sources@, 0),
        forall|k: int| 0 <= k < spans@.len() ==> (#[trigger] spans@[k]).column@ == "source"@ && spans@[k].columns == 1,
{
    let mut spans: Vec<TableSpan> = Vec::new();
    let mut start: usize = 0;
    while start < sources.len()
        invariant
            start <= sources.len(),
            spans_view(spans@) + source_runs(sources@, start as int) == source_runs(sources@, 0),
            forall|k: int| 0 <= k < spans@.len() ==> (#[trigger] spans@[k]).column@ == "source"@ && spans@[k].columns == 1,
        decreases sources.len() - start,
    {
        let source = sources[start];
        let mut end: usize = start + 1;
        while end < sources.len() && sources[end] == source
            invariant
                start < end <= sources.len(),
                source == sources@[start as int],
                run_end(sources@, start as int, start as int + 1) == run_end(sources@, start as int, end as int),
            decreases sources.len() - end,
        {
            end = end + 1;
        }
        proof {
            lemma_run_end(sources@, start as int, start as int + 1);
        }
        let ghost before = spans@;
        if end - start > 1 {
            let column = "source".to_owned();
            spans.push(TableSpan { row: start, column, rows: end - start, columns: 1 });
            assert(spans_view(spans@) =~= spans_view(before) + seq![(start as int, end - start)]);
        }
        assert(spans_view(spans@) + source_runs(sources@, end as int) =~= source_runs(sources@, 0));
        start = end;
    }
    assert(source_runs(sources@, start as int) =~= Seq::<(int, int)>::empty());
    spans
}

} // verus!
