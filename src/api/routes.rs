//! Request paths matched against pathname patterns such as
//! `/tables/:tid/items/:id`, and the numeric ids read from their groups.
use crate::domain::types::{
    item_id_error, table_id_error, IdType, ItemId, TableId, MAX_TABLE_ID, MIN_TABLE_ID,
};
use crate::text::parse_u32;
use vstd::prelude::*;

verus! {

/// Whether the pathname pattern `pattern` matches the path `url`.
pub uninterp spec fn path_matches(url: Seq<char>, pattern: Seq<char>) -> bool;

/// What the named group `group` of the pathname pattern `pattern` captures
/// from the path `url`; none where the pattern does not compile or match, or
/// has no such group.
pub uninterp spec fn path_group(url: Seq<char>, pattern: Seq<char>, group: Seq<char>) -> Option<
    Seq<char>,
>;

/// Relies on urlpattern's `UrlPattern::parse` and `UrlPattern::test` on the
/// pathname alone: whether the compiled pattern matches `url`. A pattern that
/// does not compile, or an input it cannot read, matches nothing.
#[verifier::external_body]
fn url_matches(url: &str, pattern: &str) -> (r: bool)
    ensures
        r == path_matches(url@, pattern@),
{
    let init = urlpattern::UrlPatternInit { pathname: Some(pattern.to_owned()), ..Default::default() };
    let input = urlpattern::UrlPatternInit { pathname: Some(url.to_owned()), ..Default::default() };
    let compiled = match <urlpattern::UrlPattern>::parse(init) {
        Ok(p) => p,
        Err(_) => return false,
    };
    match compiled.test(urlpattern::UrlPatternMatchInput::Init(input)) {
        Ok(matched) => matched,
        Err(_) => false,
    }
}

/// Relies on urlpattern's `UrlPattern::parse` and `UrlPattern::exec` on the
/// pathname alone: the value that the named group captured in a match.
#[verifier::external_body]
fn url_group(url: &str, pattern: &str, group: &str) -> (r: Option<String>)
    ensures
        match r {
            Some(v) => path_group(url@, pattern@, group@) == Some(v@),
            None => path_group(url@, pattern@, group@) is None,
        },
{
    let init = urlpattern::UrlPatternInit { pathname: Some(pattern.to_owned()), ..Default::default() };
    let input = urlpattern::UrlPatternInit { pathname: Some(url.to_owned()), ..Default::default() };
    let compiled = match <urlpattern::UrlPattern>::parse(init) {
        Ok(p) => p,
        Err(_) => return None,
    };
    match compiled.exec(urlpattern::UrlPatternMatchInput::Init(input)) {
        Ok(Some(result)) => result.pathname.groups.get(group).cloned(),
        Ok(None) => None,
        Err(_) => None,
    }
}

/// Whether the path `url` matches the pathname pattern `pattern`.
pub fn match_url(url: &str, pattern: &str) -> (r: bool)
    ensures
        r == path_matches(url@, pattern@),
{
    url_matches(url, pattern)
}

/// The message for a path whose pattern captured nothing under `group`.
pub open spec fn missing_group_error(group: Seq<char>) -> Seq<char> {
    "Numeric group '"@ + group + "' not found"@
}

/// Reads the named group of `url_pattern` in `url` and validates it as `T`.
pub fn parse_numeric_id<T: TryFrom<String, Error = String>>(
    url: &str,
    url_pattern: &str,
    numeric_group: &str,
) -> (r: Result<T, String>)
    ensures
        path_group(url@, url_pattern@, numeric_group@) is None ==> (r matches Err(e) && e@
            == missing_group_error(numeric_group@)),
        path_group(url@, url_pattern@, numeric_group@) is Some ==> exists|s: String|
            s@ == path_group(url@, url_pattern@, numeric_group@)->Some_0 && call_ensures(
                T::try_from,
                (s,),
                r,
            ),
{
    match url_group(url, url_pattern, numeric_group) {
        Some(s) => T::try_from(s),
        None => {
            let mut m = String::from_str("Numeric group '");
            m.append(numeric_group);
            m.append("' not found");
            Err(m)
        },
    }
}

/// The table id that group `group` of `pattern` reads from `url`, if valid.
pub open spec fn table_in_path(url: Seq<char>, pattern: Seq<char>, group: Seq<char>) -> Option<
    TableId<IdType>,
> {
    match path_group(url, pattern, group) {
        Some(s) => match parse_u32(s) {
            Some(v) => if MIN_TABLE_ID <= v <= MAX_TABLE_ID {
                Some(TableId(v))
            } else {
                None
            },
            None => None,
        },
        None => None,
    }
}

/// The item id that group `group` of `pattern` reads from `url`, if valid.
pub open spec fn item_in_path(url: Seq<char>, pattern: Seq<char>, group: Seq<char>) -> Option<
    ItemId<IdType>,
> {
    match path_group(url, pattern, group) {
        Some(s) => match parse_u32(s) {
            Some(v) => if v > 0 {
                Some(ItemId(v))
            } else {
                None
            },
            None => None,
        },
        None => None,
    }
}

/// Reads a table id from the named group of `url_pattern` in `url`.
pub fn parse_table_id(url: &str, url_pattern: &str, group: &str) -> (r: Result<
    TableId<IdType>,
    String,
>)
    ensures
        match table_in_path(url@, url_pattern@, group@) {
            Some(t) => r == Ok::<TableId<IdType>, String>(t),
            None => r is Err,
        },
        path_group(url@, url_pattern@, group@) is None ==> (r matches Err(e) && e@
            == missing_group_error(group@)),
        (path_group(url@, url_pattern@, group@) matches Some(s) && table_in_path(
            url@,
            url_pattern@,
            group@,
        ) is None) ==> (r matches Err(e) && e@ == table_id_error(
            path_group(url@, url_pattern@, group@)->Some_0,
        )),
{
    match url_group(url, url_pattern, group) {
        Some(s) => TableId::parse(s),
        None => {
            let mut m = String::from_str("Numeric group '");
            m.append(group);
            m.append("' not found");
            Err(m)
        },
    }
}

/// Reads an item id from the named group of `url_pattern` in `url`.
pub fn parse_item_id(url: &str, url_pattern: &str, group: &str) -> (r: Result<
    ItemId<IdType>,
    String,
>)
    ensures
        match item_in_path(url@, url_pattern@, group@) {
            Some(i) => r == Ok::<ItemId<IdType>, String>(i),
            None => r is Err,
        },
        path_group(url@, url_pattern@, group@) is None ==> (r matches Err(e) && e@
            == missing_group_error(group@)),
        (path_group(url@, url_pattern@, group@) matches Some(s) && item_in_path(
            url@,
            url_pattern@,
            group@,
        ) is None) ==> (r matches Err(e) && e@ == item_id_error(
            path_group(url@, url_pattern@, group@)->Some_0,
        )),
{
    match url_group(url, url_pattern, group) {
        Some(s) => ItemId::parse(s),
        None => {
            let mut m = String::from_str("Numeric group '");
            m.append(group);
            m.append("' not found");
            Err(m)
        },
    }
}

/// The request methods that routing tells apart.
#[derive(PartialEq, Eq, Structural, Debug, Copy, Clone)]
pub enum HttpMethod {
    Get,
    Post,
    Put,
    Delete,
    Other,
}

/// The handler that a request goes to.
#[derive(PartialEq, Eq, Structural, Debug, Copy, Clone)]
pub enum Route {
    DeleteItem,
    DeleteItems,
    ReadItem,
    ReadItems,
    UpdateItems,
    CreateItems,
    NotFound,
}

/// The path of one item of a table.
pub open spec fn item_pattern() -> Seq<char> {
    "/tables/:tid/items/:id"@
}

/// The path of the items of a table.
pub open spec fn items_pattern() -> Seq<char> {
    "/tables/:tid/items"@
}

/// Where a request goes: by its method, to the one-item path first, then to
/// the items path; anything else is not found.
pub open spec fn route_of(method: HttpMethod, path: Seq<char>) -> Route {
    let item = path_matches(path, item_pattern());
    let items = path_matches(path, items_pattern());
    match method {
        HttpMethod::Delete => if item {
            Route::DeleteItem
        } else if items {
            Route::DeleteItems
        } else {
            Route::NotFound
        },
        HttpMethod::Get => if item {
            Route::ReadItem
        } else if items {
            Route::ReadItems
        } else {
            Route::NotFound
        },
        HttpMethod::Put => if items {
            Route::UpdateItems
        } else {
            Route::NotFound
        },
        HttpMethod::Post => if items {
            Route::CreateItems
        } else {
            Route::NotFound
        },
        HttpMethod::Other => Route::NotFound,
    }
}

/// Routes a request by its method and path.
pub fn route(method: HttpMethod, path: &str) -> (r: Route)
    ensures
        r == route_of(method, path@),
{
    let item = match_url(path, "/tables/:tid/items/:id");
    let items = match_url(path, "/tables/:tid/items");
    match method {
        HttpMethod::Delete => if item {
            Route::DeleteItem
        } else if items {
            Route::DeleteItems
        } else {
            Route::NotFound
        },
        HttpMethod::Get => if item {
            Route::ReadItem
        } else if items {
            Route::ReadItems
        } else {
            Route::NotFound
        },
        HttpMethod::Put => if items {
            Route::UpdateItems
        } else {
            Route::NotFound
        },
        HttpMethod::Post => if items {
            Route::CreateItems
        } else {
            Route::NotFound
        },
        HttpMethod::Other => Route::NotFound,
    }
}

} // verus!
