//! What crates.io says of a crate, and where it keeps its releases.

use vstd::prelude::*;
use vstd::string::StringExecFns;

use crate::cargo::{is_crate_name, is_crate_name_char};
use crate::interface::ExtensionError;
use crate::json::{first_member_is_found, first_place, parsed_json};
use crate::json::{Json, JsonError, JsonView, MemberView};
use crate::text::same_text;

verus! {

/// Where the registry describes a crate.
pub open spec fn entry_route(package_name: Seq<char>) -> Seq<char> {
    "https://crates.io/api/v1/crates/"@ + package_name
}

/// Where the registry shows a release.
pub open spec fn human_route(package_name: Seq<char>, package_version: Seq<char>) -> Seq<char> {
    "https://crates.io/crates/"@ + package_name + "/"@ + package_version
}

/// The file name of the archive of a release.
pub open spec fn archive_file(package_name: Seq<char>, package_version: Seq<char>) -> Seq<char> {
    package_name + "-"@ + package_version + ".crate"@
}

/// Where the registry keeps the archive of a release.
pub open spec fn archive_route(package_name: Seq<char>, package_version: Seq<char>) -> Seq<char> {
    "https://static.crates.io/crates/"@ + package_name + "/"@ + package_name + "-"@
        + package_version + ".crate"@
}

/// Where the registry describes a crate.
pub fn registry_entry_url(package_name: &str) -> (url: String)
    ensures
        url@ == entry_route(package_name@),
{
    "https://crates.io/api/v1/crates/".to_string().concat(package_name)
}

/// How the extension, in the given version, presents itself to the registry.
pub fn user_agent(version: &str) -> (agent: String)
    ensures
        agent@ == "thirdpass-rs/"@ + version@,
{
    "thirdpass-rs/".to_string().concat(version)
}

/// The string that a member of the crate's description is, unless it is empty.
pub open spec fn version_field(description: JsonView, field: Seq<char>) -> Option<Seq<char>> {
    match description.text_member(field) {
        Some(version) => if version.len() > 0 {
            Some(version)
        } else {
            None
        },
        None => None,
    }
}

/// The latest version that a registry entry names: the highest stable one; failing that,
/// the highest one; failing that, the newest one.
pub open spec fn latest_version(entry: JsonView) -> Option<Seq<char>> {
    match entry.member("crate"@) {
        None => None,
        Some(description) => match version_field(description, "max_stable_version"@) {
            Some(version) => Some(version),
            None => match version_field(description, "max_version"@) {
                Some(version) => Some(version),
                None => version_field(description, "newest_version"@),
            },
        },
    }
}

/// One of the versions that a registry entry lists has this number.
pub open spec fn lists_version(entry: JsonView, version: Seq<char>) -> bool {
    entry.member("versions"@) matches Some(JsonView::Array(versions)) && exists|i: int|
        0 <= i < versions.len() && (#[trigger] versions[i]).text_member("num"@) == Some(version)
}

/// The latest version is never the empty string.
pub proof fn latest_version_is_not_empty(entry: JsonView)
    ensures
        latest_version(entry) matches Some(version) ==> version.len() > 0,
{
}

/// A stable version is preferred, whatever else the entry names.
pub proof fn stable_version_is_preferred(entry: JsonView)
    requires
        entry.member("crate"@) is Some,
        version_field(entry.member("crate"@)->0, "max_stable_version"@) is Some,
    ensures
        latest_version(entry) == version_field(
            entry.member("crate"@)->0,
            "max_stable_version"@,
        ),
{
}

/// What an entry names as the highest stable version is the latest one, whatever it is and
/// whatever else the entry names.
pub proof fn highest_stable_version_is_the_latest(
    entry: &Json,
    version: Option<String>,
    members: Seq<MemberView>,
    crate_place: int,
    fields: Seq<MemberView>,
    place: int,
    stable: Seq<char>,
)
    requires
        call_ensures(get_latest_version_from_entry_json, (entry,), version),
        entry@ == JsonView::Object(members),
        0 <= crate_place < members.len(),
        members[crate_place] == (MemberView { name: "crate"@, value: JsonView::Object(fields) }),
        forall|i: int| 0 <= i < crate_place ==> (#[trigger] members[i]).name != "crate"@,
        0 <= place < fields.len(),
        fields[place] == (MemberView {
            name: "max_stable_version"@,
            value: JsonView::Text(stable),
        }),
        forall|i: int| 0 <= i < place ==> (#[trigger] fields[i]).name != "max_stable_version"@,
        stable.len() > 0,
    ensures
        version matches Some(text) && text@ == stable,
{
    first_member_is_found(members, "crate"@, crate_place);
    first_member_is_found(fields, "max_stable_version"@, place);
}

/// Without a stable version, which is a string that is not empty, the highest version is the
/// latest one.
pub proof fn highest_version_is_the_latest_without_a_stable_one(
    entry: &Json,
    version: Option<String>,
    members: Seq<MemberView>,
    crate_place: int,
    fields: Seq<MemberView>,
    place: int,
    highest: Seq<char>,
)
    requires
        call_ensures(get_latest_version_from_entry_json, (entry,), version),
        entry@ == JsonView::Object(members),
        0 <= crate_place < members.len(),
        members[crate_place] == (MemberView { name: "crate"@, value: JsonView::Object(fields) }),
        forall|i: int| 0 <= i < crate_place ==> (#[trigger] members[i]).name != "crate"@,
        forall|i: int|
            0 <= i < fields.len() && (#[trigger] fields[i]).name == "max_stable_version"@ && (
            forall|j: int| 0 <= j < i ==> (#[trigger] fields[j]).name != "max_stable_version"@)
                ==> !(fields[i].value matches JsonView::Text(text) && text.len() > 0),
        0 <= place < fields.len(),
        fields[place] == (MemberView { name: "max_version"@, value: JsonView::Text(highest) }),
        forall|i: int| 0 <= i < place ==> (#[trigger] fields[i]).name != "max_version"@,
        highest.len() > 0,
    ensures
        version matches Some(text) && text@ == highest,
{
    first_member_is_found(members, "crate"@, crate_place);
    let stable_place = first_place(fields, "max_stable_version"@);
    if JsonView::Object(fields).member("max_stable_version"@) is Some {
        assert(fields[stable_place].name == "max_stable_version"@);
    }
    first_member_is_found(fields, "max_version"@, place);
}

/// Without a stable and a highest version, each a string that is not empty, the newest version
/// is the latest one.
pub proof fn newest_version_is_the_latest_without_the_others(
    entry: &Json,
    version: Option<String>,
    members: Seq<MemberView>,
    crate_place: int,
    fields: Seq<MemberView>,
    place: int,
    newest: Seq<char>,
)
    requires
        call_ensures(get_latest_version_from_entry_json, (entry,), version),
        entry@ == JsonView::Object(members),
        0 <= crate_place < members.len(),
        members[crate_place] == (MemberView { name: "crate"@, value: JsonView::Object(fields) }),
        forall|i: int| 0 <= i < crate_place ==> (#[trigger] members[i]).name != "crate"@,
        forall|i: int|
            0 <= i < fields.len() && (#[trigger] fields[i]).name == "max_stable_version"@ && (
            forall|j: int| 0 <= j < i ==> (#[trigger] fields[j]).name != "max_stable_version"@)
                ==> !(fields[i].value matches JsonView::Text(text) && text.len() > 0),
        forall|i: int|
            0 <= i < fields.len() && (#[trigger] fields[i]).name == "max_version"@ && (forall|j: int|
                0 <= j < i ==> (#[trigger] fields[j]).name != "max_version"@)
                ==> !(fields[i].value matches JsonView::Text(text) && text.len() > 0),
        0 <= place < fields.len(),
        fields[place] == (MemberView { name: "newest_version"@, value: JsonView::Text(newest) }),
        forall|i: int| 0 <= i < place ==> (#[trigger] fields[i]).name != "newest_version"@,
        newest.len() > 0,
    ensures
        version matches Some(text) && text@ == newest,
{
    first_member_is_found(members, "crate"@, crate_place);
    let stable_place = first_place(fields, "max_stable_version"@);
    if JsonView::Object(fields).member("max_stable_version"@) is Some {
        assert(fields[stable_place].name == "max_stable_version"@);
    }
    let highest_place = first_place(fields, "max_version"@);
    if JsonView::Object(fields).member("max_version"@) is Some {
        assert(fields[highest_place].name == "max_version"@);
    }
    first_member_is_found(fields, "newest_version"@, place);
}

/// A latest version is a string, not empty, that the description of the crate holds as one of
/// three members: without such a member there is none.
pub proof fn latest_version_is_one_that_the_entry_names(entry: &Json, version: Option<String>)
    requires
        call_ensures(get_latest_version_from_entry_json, (entry,), version),
    ensures
        version matches Some(text) ==> {
            &&& text@.len() > 0
            &&& entry@ matches JsonView::Object(members)
            &&& exists|c: int, i: int|
                {
                    &&& 0 <= c < members.len()
                    &&& members[c].name == "crate"@
                    &&& members[c].value is Object
                    &&& 0 <= i < members[c].value->Object_0.len()
                    &&& (#[trigger] members[c].value->Object_0[i]).value == JsonView::Text(text@)
                    &&& {
                        ||| members[c].value->Object_0[i].name == "max_stable_version"@
                        ||| members[c].value->Object_0[i].name == "max_version"@
                        ||| members[c].value->Object_0[i].name == "newest_version"@
                    }
                }
        },
{
    if let Some(text) = version {
        let members = entry@->Object_0;
        let c = first_place(members, "crate"@);
        let description = members[c].value;
        let fields = description->Object_0;
        let stable = first_place(fields, "max_stable_version"@);
        let highest = first_place(fields, "max_version"@);
        let newest = first_place(fields, "newest_version"@);
        assert(members[c].name == "crate"@);
        if version_field(description, "max_stable_version"@) is Some {
            assert(fields[stable].value == JsonView::Text(text@));
        } else if version_field(description, "max_version"@) is Some {
            assert(fields[highest].value == JsonView::Text(text@));
        } else {
            assert(fields[newest].value == JsonView::Text(text@));
        }
    }
}

/// The reply of the registry names the version that its document names.
pub proof fn reply_names_the_version_of_its_document(
    body: &str,
    entry: Json,
    version: Option<String>,
    result: Result<Option<String>, ExtensionError>,
)
    requires
        call_ensures(Json::parse, (body,), Ok(entry)),
        call_ensures(get_latest_version_from_entry_json, (&entry,), version),
        call_ensures(get_latest_version, (body,), result),
    ensures
        (match version {
            Some(text) => result matches Ok(Some(other)) && other@ == text@,
            None => result matches Ok(None),
        }),
{
}

/// Every version that an entry lists is known, wherever in the list it stands.
pub proof fn every_listed_version_is_known(
    entry: &Json,
    version: &str,
    has: bool,
    members: Seq<MemberView>,
    versions_place: int,
    versions: Seq<JsonView>,
    k: int,
    numbers: Seq<MemberView>,
    place: int,
)
    requires
        call_ensures(registry_entry_has_version, (entry, version), has),
        entry@ == JsonView::Object(members),
        0 <= versions_place < members.len(),
        members[versions_place] == (MemberView {
            name: "versions"@,
            value: JsonView::Array(versions),
        }),
        forall|i: int| 0 <= i < versions_place ==> (#[trigger] members[i]).name != "versions"@,
        0 <= k < versions.len(),
        versions[k] == JsonView::Object(numbers),
        0 <= place < numbers.len(),
        numbers[place] == (MemberView { name: "num"@, value: JsonView::Text(version@) }),
        forall|i: int| 0 <= i < place ==> (#[trigger] numbers[i]).name != "num"@,
    ensures
        has,
{
    first_member_is_found(members, "versions"@, versions_place);
    first_member_is_found(numbers, "num"@, place);
    assert(versions[k].text_member("num"@) == Some(version@));
}

/// Every version that is known is one that the entry lists.
pub proof fn every_known_version_is_listed(entry: &Json, version: &str, has: bool)
    requires
        call_ensures(registry_entry_has_version, (entry, version), has),
    ensures
        has ==> {
            &&& entry@ matches JsonView::Object(members)
            &&& exists|v: int, k: int, n: int|
                {
                    &&& 0 <= v < members.len()
                    &&& members[v].name == "versions"@
                    &&& members[v].value is Array
                    &&& 0 <= k < members[v].value->Array_0.len()
                    &&& members[v].value->Array_0[k] is Object
                    &&& 0 <= n < members[v].value->Array_0[k]->Object_0.len()
                    &&& #[trigger] members[v].value->Array_0[k]->Object_0[n] == (MemberView {
                        name: "num"@,
                        value: JsonView::Text(version@),
                    })
                }
        },
{
    if has {
        let members = entry@->Object_0;
        let v = first_place(members, "versions"@);
        let versions = members[v].value->Array_0;
        let k = choose|k: int|
            0 <= k < versions.len() && (#[trigger] versions[k]).text_member("num"@) == Some(
                version@,
            );
        let numbers = versions[k]->Object_0;
        let n = first_place(numbers, "num"@);
        assert(members[v].name == "versions"@);
        assert(members[v].value->Array_0[k]->Object_0[n] == MemberView {
            name: "num"@,
            value: JsonView::Text(version@),
        });
    }
}

/// A version stays known in every list that holds what the list held: neither the order of the
/// list nor what is added to it matters.
pub proof fn order_and_additions_hide_no_version(
    entry: &Json,
    other_entry: &Json,
    version: &str,
    has: bool,
    other_has: bool,
    members: Seq<MemberView>,
    place: int,
    versions: Seq<JsonView>,
    other_members: Seq<MemberView>,
    other_place: int,
    other_versions: Seq<JsonView>,
)
    requires
        call_ensures(registry_entry_has_version, (entry, version), has),
        call_ensures(registry_entry_has_version, (other_entry, version), other_has),
        entry@ == JsonView::Object(members),
        0 <= place < members.len(),
        members[place] == (MemberView { name: "versions"@, value: JsonView::Array(versions) }),
        forall|i: int| 0 <= i < place ==> (#[trigger] members[i]).name != "versions"@,
        other_entry@ == JsonView::Object(other_members),
        0 <= other_place < other_members.len(),
        other_members[other_place] == (MemberView {
            name: "versions"@,
            value: JsonView::Array(other_versions),
        }),
        forall|i: int| 0 <= i < other_place ==> (#[trigger] other_members[i]).name != "versions"@,
        forall|item: JsonView| #[trigger] versions.contains(item) ==> other_versions.contains(item),
    ensures
        has ==> other_has,
{
    first_member_is_found(members, "versions"@, place);
    first_member_is_found(other_members, "versions"@, other_place);
    if has {
        let k = choose|k: int|
            0 <= k < versions.len() && (#[trigger] versions[k]).text_member("num"@) == Some(
                version@,
            );
        assert(versions.contains(versions[k]));
        let other_k = choose|i: int|
            0 <= i < other_versions.len() && other_versions[i] == versions[k];
        assert(other_versions[other_k].text_member("num"@) == Some(version@));
    }
}

/// Reads what the registry replied.
pub fn registry_entry_json(body: &str) -> (result: Result<Json, ExtensionError>)
    ensures
        (match result {
            Ok(entry) => parsed_json(body@) == Ok::<JsonView, Seq<char>>(entry@),
            Err(ExtensionError::MalformedEntry { body: text, cause }) => text@ == body@
                && parsed_json(body@) == Err::<JsonView, Seq<char>>(cause@),
            Err(_) => false,
        }),
{
    match Json::parse(body) {
        Ok(entry) => Ok(entry),
        Err(error) => Err(
            ExtensionError::MalformedEntry { body: body.to_string(), cause: error.message },
        ),
    }
}

/// The latest version that the reply of the registry names.
pub fn get_latest_version(body: &str) -> (result: Result<Option<String>, ExtensionError>)
    ensures
        (match result {
            Ok(Some(version)) => parsed_json(body@) matches Ok(entry) && latest_version(entry)
                == Some(version@),
            Ok(None) => parsed_json(body@) matches Ok(entry) && latest_version(entry) is None,
            Err(ExtensionError::MalformedEntry { body: text, cause }) => text@ == body@
                && parsed_json(body@) == Err::<JsonView, Seq<char>>(cause@),
            Err(_) => false,
        }),
{
    match registry_entry_json(body) {
        Ok(entry) => Ok(get_latest_version_from_entry_json(&entry)),
        Err(error) => Err(error),
    }
}

/// The string that a member of the crate's description is, unless it is empty.
fn get_version_field(description: &Json, field: &str) -> (version: Option<String>)
    ensures
        (match version {
            Some(text) => version_field(description@, field@) == Some(text@),
            None => version_field(description@, field@) is None,
        }),
{
    match description.get(field) {
        Some(value) => match value.as_str() {
            Some(text) => if text.is_empty() {
                None
            } else {
                Some(text.to_string())
            },
            None => None,
        },
        None => None,
    }
}

/// The latest version that a registry entry names.
pub fn get_latest_version_from_entry_json(registry_entry_json: &Json) -> (version: Option<String>)
    ensures
        (match version {
            Some(text) => latest_version(registry_entry_json@) == Some(text@),
            None => latest_version(registry_entry_json@) is None,
        }),
{
    match registry_entry_json.get("crate") {
        None => None,
        Some(description) => match get_version_field(description, "max_stable_version") {
            Some(version) => Some(version),
            None => match get_version_field(description, "max_version") {
                Some(version) => Some(version),
                None => get_version_field(description, "newest_version"),
            },
        },
    }
}

/// Whether a registry entry lists a version.
pub fn registry_entry_has_version(registry_entry_json: &Json, version: &str) -> (has: bool)
    ensures
        has == lists_version(registry_entry_json@, version@),
{
    let versions = match registry_entry_json.get("versions") {
        Some(value) => match value.as_array() {
            Some(versions) => versions,
            None => {
                return false;
            },
        },
        None => {
            return false;
        },
    };
    let ghost views = registry_entry_json@.member("versions"@)->0->Array_0;
    assert(views.len() == versions@.len());
    for i in 0..versions.len()
        invariant
            registry_entry_json@.member("versions"@) == Some(JsonView::Array(views)),
            views.len() == versions@.len(),
            forall|j: int| 0 <= j < views.len() ==> #[trigger] views[j] == versions@[j]@,
            forall|j: int|
                0 <= j < i ==> (#[trigger] views[j]).text_member("num"@) != Some(version@),
    {
        assert(views[i as int] == versions@[i as int]@);
        if let Some(number) = versions[i].get("num") {
            if let Some(text) = number.as_str() {
                if same_text(text, version) {
                    return true;
                }
            }
        }
    }
    false
}

/// `url::ParseError`: why a text is no URL.
#[verifier::external_type_specification]
#[verifier::external_body]
pub struct ExUrlParseError(url::ParseError);

/// What `url::Url::parse` makes of a text: the URL as a string, or the error that it displays.
pub uninterp spec fn parsed_url(text: Seq<char>) -> Result<Seq<char>, Seq<char>>;

/// The text as which a `url::ParseError` is displayed.
pub uninterp spec fn url_error_text(error: url::ParseError) -> Seq<char>;

/// Why a text is no URL.
#[derive(Debug, PartialEq, Eq)]
pub struct UrlError {
    pub message: String,
}

/// The text is `https://`, a host, `/` and a rest.
pub open spec fn is_https(text: Seq<char>, host: Seq<char>, rest: Seq<char>) -> bool {
    text == "https://"@ + host + "/"@ + rest
}

/// A host of lower-case words with dots between them, no longer than a domain name can be.
pub open spec fn is_plain_host(host: Seq<char>) -> bool {
    &&& 0 < host.len() <= 253
    &&& forall|i: int| 0 <= i < host.len() ==> 'a' <= #[trigger] host[i] <= 'z' || host[i] == '.'
    &&& host[0] != '.' && host.last() != '.'
    &&& forall|i: int|
        0 < i < host.len() ==> !(#[trigger] host[i] == '.' && host[i - 1] == '.')
}

/// A path whose segments are not empty, do not begin with a dot, and consist of letters,
/// digits, `.`, `-`, `_` and `+`.
pub open spec fn is_plain_path(path: Seq<char>) -> bool {
    &&& path.len() > 0
    &&& forall|i: int|
        0 <= i < path.len() ==> is_plain_path_char(#[trigger] path[i]) || path[i] == '/'
    &&& path[0] != '.' && path[0] != '/' && path.last() != '/'
    &&& forall|i: int|
        0 < i < path.len() ==> (path[i - 1] == '/' ==> #[trigger] path[i] != '.' && path[i] != '/')
}

/// A character that a URL path holds as it is.
pub open spec fn is_plain_path_char(c: char) -> bool {
    ||| 'a' <= c <= 'z'
    ||| 'A' <= c <= 'Z'
    ||| '0' <= c <= '9'
    ||| c == '.'
    ||| c == '-'
    ||| c == '_'
    ||| c == '+'
}

/// The text is that of a URL with a plain host.
pub open spec fn has_plain_host(text: Seq<char>) -> bool {
    exists|host: Seq<char>, rest: Seq<char>| #[trigger]
        is_https(text, host, rest) && is_plain_host(host)
}

/// The text is that of a URL with a plain host and a plain path.
pub open spec fn is_plain_url(text: Seq<char>) -> bool {
    exists|host: Seq<char>, path: Seq<char>| #[trigger]
        is_https(text, host, path) && is_plain_host(host) && is_plain_path(path)
}

/// No query or fragment of the text can start behind the first `u32::MAX` bytes of the URL. Either
/// the text is too short for that, though each of the four bytes of a character be written as
/// three, or it has neither: `?` starts the one and `#` the other.
pub open spec fn is_readable(text: Seq<char>) -> bool {
    ||| 12 * text.len() <= u32::MAX
    ||| forall|i: int| 0 <= i < text.len() ==> #[trigger] text[i] != '?' && text[i] != '#'
}

/// `url::Url::parse`, with the URL as a string: by the text alone. Behind a plain host
/// everything can be read, unless a query or a fragment starts too far behind. A URL of a plain
/// host and a plain path stays as it is, however long it is.
#[verifier::external_body]
fn parse_url(text: &str) -> (result: Result<String, url::ParseError>)
    requires
        has_plain_host(text@),
    ensures
        result is Ok <==> parsed_url(text@) is Ok,
        result matches Ok(url) ==> url@ == parsed_url(text@)->Ok_0,
        result matches Err(error) ==> url_error_text(error) == parsed_url(text@)->Err_0,
        is_readable(text@) ==> result is Ok,
        is_plain_url(text@) ==> result is Ok && result->Ok_0@ == text@,
{
    url::Url::parse(text).map(String::from)
}

/// The display of a `url::ParseError`, as a string.
#[verifier::external_body]
fn display_url_error(error: &url::ParseError) -> (text: String)
    ensures
        text@ == url_error_text(*error),
{
    error.to_string()
}

/// The result is that of reading a route: it succeeds on a readable one, and leaves the route of
/// a plain release as it is.
pub open spec fn is_url_of_route(
    result: Result<String, UrlError>,
    route: Seq<char>,
    is_plain: bool,
) -> bool {
    &&& (match parsed_url(route) {
        Ok(text) => result matches Ok(url) && url@ == text,
        Err(message) => result matches Err(error) && error.message@ == message,
    })
    &&& is_readable(route) ==> result is Ok
    &&& is_plain ==> (result matches Ok(url) && url@ == route)
}

/// Reads a URL.
fn get_url(text: &str) -> (result: Result<String, UrlError>)
    requires
        has_plain_host(text@),
    ensures
        is_url_of_route(result, text@, is_plain_url(text@)),
{
    match parse_url(text) {
        Ok(url) => Ok(url),
        Err(error) => Err(UrlError { message: display_url_error(&error) }),
    }
}

/// A release whose routes need no escaping: a crate name and a plain version.
pub open spec fn is_plain_release(name: Seq<char>, version: Seq<char>) -> bool {
    is_crate_name(name) && is_plain_version(version)
}

/// A segment of a plain path.
pub open spec fn is_plain_segment(segment: Seq<char>) -> bool {
    &&& segment.len() > 0
    &&& segment[0] != '.'
    &&& forall|i: int| 0 <= i < segment.len() ==> is_plain_path_char(#[trigger] segment[i])
}

/// A version of letters, digits, `.`, `-`, `_` and `+` that does not begin with a dot.
pub open spec fn is_plain_version(version: Seq<char>) -> bool {
    is_plain_segment(version)
}

proof fn crate_name_is_plain_segment(name: Seq<char>)
    requires
        is_crate_name(name),
    ensures
        is_plain_segment(name),
{
    assert forall|i: int| 0 <= i < name.len() implies is_plain_path_char(#[trigger] name[i])
        && name[i] != '.' by {
        assert(is_crate_name_char(name[i]));
    }
}

/// A segment behind a plain path makes a plain path.
proof fn plain_path_grows(path: Seq<char>, segment: Seq<char>)
    requires
        is_plain_path(path),
        is_plain_segment(segment),
    ensures
        is_plain_path(path + "/"@ + segment),
{
    reveal_strlit("/");
    let longer = path + "/"@ + segment;
    let start = path.len() + 1;
    assert(longer.last() == segment.last());
    assert forall|i: int| 0 <= i < longer.len() implies is_plain_path_char(#[trigger] longer[i])
        || longer[i] == '/' by {
        if i < path.len() {
            assert(longer[i] == path[i]);
        } else if i >= start {
            assert(longer[i] == segment[i - start]);
        }
    }
    assert forall|i: int| 0 < i < longer.len() && longer[i - 1] == '/' implies #[trigger] longer[i]
        != '.' && longer[i] != '/' by {
        if i < path.len() {
            assert(longer[i] == path[i] && longer[i - 1] == path[i - 1]);
        } else if i == path.len() {
            assert(longer[i - 1] == path.last());
        } else if i == start {
            assert(longer[i] == segment[0]);
        } else {
            assert(longer[i - 1] == segment[i - 1 - start]);
        }
    }
}

/// The path `crates`, a crate name and a segment is plain.
proof fn crates_path_is_plain(name: Seq<char>, segment: Seq<char>)
    requires
        is_crate_name(name),
        is_plain_segment(segment),
    ensures
        is_plain_path("crates"@ + "/"@ + name + "/"@ + segment),
{
    assert(is_plain_path("crates"@)) by {
        reveal_strlit("crates");
    }
    crate_name_is_plain_segment(name);
    plain_path_grows("crates"@, name);
    plain_path_grows("crates"@ + "/"@ + name, segment);
}

proof fn human_route_is_https(name: Seq<char>, version: Seq<char>)
    ensures
        is_https(
            human_route(name, version),
            "crates.io"@,
            "crates"@ + "/"@ + name + "/"@ + version,
        ),
        is_plain_host("crates.io"@),
{
    reveal_strlit("https://crates.io/crates/");
    reveal_strlit("https://");
    reveal_strlit("crates.io");
    reveal_strlit("/");
    reveal_strlit("crates");
    assert("https://crates.io/crates/"@ == "https://"@ + "crates.io"@ + "/"@ + "crates"@ + "/"@);
    assert(human_route(name, version) == "https://"@ + "crates.io"@ + "/"@ + ("crates"@ + "/"@
        + name + "/"@ + version));
}

/// Where the registry shows a release.
pub fn get_registry_human_url(package_name: &str, package_version: &str) -> (result: Result<
    String,
    UrlError,
>)
    ensures
        is_url_of_route(
            result,
            human_route(package_name@, package_version@),
            is_plain_release(package_name@, package_version@),
        ),
{
    let text = "https://crates.io/crates/".to_string().concat(package_name).concat("/").concat(
        package_version,
    );
    proof {
        human_route_is_https(package_name@, package_version@);
        if is_plain_release(package_name@, package_version@) {
            crates_path_is_plain(package_name@, package_version@);
        }
    }
    get_url(text.as_str())
}

proof fn archive_route_is_https(name: Seq<char>, version: Seq<char>)
    ensures
        is_https(
            archive_route(name, version),
            "static.crates.io"@,
            "crates"@ + "/"@ + name + "/"@ + archive_file(name, version),
        ),
        is_plain_host("static.crates.io"@),
{
    reveal_strlit("https://static.crates.io/crates/");
    reveal_strlit("https://");
    reveal_strlit("static.crates.io");
    reveal_strlit("/");
    reveal_strlit("crates");
    assert("https://static.crates.io/crates/"@ == "https://"@ + "static.crates.io"@ + "/"@
        + "crates"@ + "/"@);
    assert(archive_route(name, version) == "https://"@ + "static.crates.io"@ + "/"@ + ("crates"@
        + "/"@ + name + "/"@ + archive_file(name, version)));
}

proof fn archive_file_is_plain_segment(name: Seq<char>, version: Seq<char>)
    requires
        is_plain_release(name, version),
    ensures
        is_plain_segment(archive_file(name, version)),
{
    reveal_strlit("-");
    reveal_strlit(".crate");
    crate_name_is_plain_segment(name);
    let file = archive_file(name, version);
    let start = name.len() + 1;
    let end = start + version.len();
    assert(file[0] == name[0]);
    assert forall|i: int| 0 <= i < file.len() implies is_plain_path_char(#[trigger] file[i]) by {
        if i < name.len() {
            assert(file[i] == name[i]);
        } else if start <= i < end {
            assert(file[i] == version[i - start]);
        } else if i >= end {
            assert(file[i] == ".crate"@[i - end]);
        }
    }
}

/// Where the registry keeps the archive of a release.
pub fn get_archive_url(package_name: &str, package_version: &str) -> (result: Result<
    String,
    UrlError,
>)
    ensures
        is_url_of_route(
            result,
            archive_route(package_name@, package_version@),
            is_plain_release(package_name@, package_version@),
        ),
{
    let text = "https://static.crates.io/crates/".to_string().concat(package_name).concat(
        "/",
    ).concat(package_name).concat("-").concat(package_version).concat(".crate");
    proof {
        archive_route_is_https(package_name@, package_version@);
        if is_plain_release(package_name@, package_version@) {
            archive_file_is_plain_segment(package_name@, package_version@);
            crates_path_is_plain(
                package_name@,
                archive_file(package_name@, package_version@),
            );
        }
    }
    get_url(text.as_str())
}

/// What stands before the first slash, and what stands behind it.
proof fn first_slash_splits(
    name: Seq<char>,
    rest: Seq<char>,
    other_name: Seq<char>,
    other_rest: Seq<char>,
)
    requires
        is_crate_name(name),
        is_crate_name(other_name),
        name + "/"@ + rest == other_name + "/"@ + other_rest,
    ensures
        name == other_name,
        rest == other_rest,
{
    reveal_strlit("/");
    let text = name + "/"@ + rest;
    let other_text = other_name + "/"@ + other_rest;
    if name.len() < other_name.len() {
        assert(text[name.len() as int] == '/');
        assert(other_text[name.len() as int] == other_name[name.len() as int]);
        assert(is_crate_name_char(other_name[name.len() as int]));
    }
    if other_name.len() < name.len() {
        assert(other_text[other_name.len() as int] == '/');
        assert(text[other_name.len() as int] == name[other_name.len() as int]);
        assert(is_crate_name_char(name[other_name.len() as int]));
    }
    assert(name == text.take(name.len() as int));
    assert(other_name == other_text.take(name.len() as int));
    assert(rest == text.skip(name.len() as int + 1));
    assert(other_rest == other_text.skip(name.len() as int + 1));
}

/// Different releases are shown at different routes.
pub proof fn human_routes_tell_releases_apart(
    name: Seq<char>,
    version: Seq<char>,
    other_name: Seq<char>,
    other_version: Seq<char>,
)
    requires
        is_crate_name(name),
        is_crate_name(other_name),
    ensures
        human_route(name, version) == human_route(other_name, other_version) <==> name == other_name
            && version == other_version,
{
    if human_route(name, version) == human_route(other_name, other_version) {
        let head = "https://crates.io/crates/"@;
        assert(human_route(name, version).skip(head.len() as int) == name + "/"@ + version);
        assert(human_route(other_name, other_version).skip(head.len() as int) == other_name + "/"@
            + other_version);
        first_slash_splits(name, version, other_name, other_version);
    }
}

/// The archives of different releases are kept at different routes.
pub proof fn archive_routes_tell_releases_apart(
    name: Seq<char>,
    version: Seq<char>,
    other_name: Seq<char>,
    other_version: Seq<char>,
)
    requires
        is_crate_name(name),
        is_crate_name(other_name),
    ensures
        archive_route(name, version) == archive_route(other_name, other_version) <==> name
            == other_name && version == other_version,
{
    if archive_route(name, version) == archive_route(other_name, other_version) {
        let head = "https://static.crates.io/crates/"@;
        let file = archive_file(name, version);
        let other_file = archive_file(other_name, other_version);
        assert(archive_route(name, version).skip(head.len() as int) == name + "/"@ + file);
        assert(archive_route(other_name, other_version).skip(head.len() as int) == other_name
            + "/"@ + other_file);
        first_slash_splits(name, file, other_name, other_file);
        let start = name.len() + "-"@.len();
        let end = file.len() - ".crate"@.len();
        assert(version == file.subrange(start as int, end as int));
        assert(other_version == other_file.subrange(start as int, end as int));
    }
}

/// Different plain releases have different archive URLs, and each has one.
pub proof fn archive_urls_tell_releases_apart(
    name: Seq<char>,
    version: Seq<char>,
    other_name: Seq<char>,
    other_version: Seq<char>,
    result: Result<String, UrlError>,
    other_result: Result<String, UrlError>,
)
    requires
        is_plain_release(name, version),
        is_plain_release(other_name, other_version),
        is_url_of_route(result, archive_route(name, version), true),
        is_url_of_route(other_result, archive_route(other_name, other_version), true),
    ensures
        result is Ok,
        other_result is Ok,
        result->Ok_0@ == other_result->Ok_0@ <==> name == other_name && version == other_version,
{
    archive_routes_tell_releases_apart(name, version, other_name, other_version);
}

/// A crate is described by the registry under its name, as it is.
pub proof fn entry_url_ends_in_the_name(package_name: &str, url: String)
    requires
        call_ensures(registry_entry_url, (package_name,), url),
    ensures
        url@ == "https://crates.io/api/v1/crates/"@ + package_name@,
{
}

/// The registry is told the name of the extension and its version.
pub proof fn agent_tells_name_and_version(version: &str, agent: String)
    requires
        call_ensures(user_agent, (version,), agent),
    ensures
        agent@ == "thirdpass-rs/"@ + version@,
{
}

/// The reply of the registry is read as the document that it is, or refused together with the
/// reason.
pub proof fn entry_is_the_document_of_the_reply(
    body: &str,
    result: Result<Json, ExtensionError>,
    parsed: Result<Json, JsonError>,
)
    requires
        call_ensures(registry_entry_json, (body,), result),
        call_ensures(Json::parse, (body,), parsed),
    ensures
        (match parsed {
            Ok(entry) => result matches Ok(other) && other@ == entry@,
            Err(error) => {
                &&& result matches Err(ExtensionError::MalformedEntry { body: text, cause })
                &&& text@ == body@
                &&& cause@ == error.message@
            },
        }),
{
}

/// The URLs of a release are what the URL parser makes of the page and of the archive that
/// crates.io has for its name and version, or else the parser's error.
pub proof fn urls_are_made_of_name_and_version(
    package_name: &str,
    package_version: &str,
    human: Result<String, UrlError>,
    archive: Result<String, UrlError>,
)
    requires
        call_ensures(get_registry_human_url, (package_name, package_version), human),
        call_ensures(get_archive_url, (package_name, package_version), archive),
    ensures
        (match parsed_url(
            "https://crates.io/crates/"@ + package_name@ + "/"@ + package_version@,
        ) {
            Ok(text) => human matches Ok(url) && url@ == text,
            Err(message) => human matches Err(error) && error.message@ == message,
        }),
        (match parsed_url(
            "https://static.crates.io/crates/"@ + package_name@ + "/"@ + package_name@ + "-"@
                + package_version@ + ".crate"@,
        ) {
            Ok(text) => archive matches Ok(url) && url@ == text,
            Err(message) => archive matches Err(error) && error.message@ == message,
        }),
{
}

/// A crate name and a version of letters, digits, `.`, `-`, `_` and `+`, with no dot before
/// it, stand in both URLs as they are.
pub proof fn plain_releases_have_their_routes_as_urls(
    package_name: &str,
    package_version: &str,
    human: Result<String, UrlError>,
    archive: Result<String, UrlError>,
)
    requires
        call_ensures(get_registry_human_url, (package_name, package_version), human),
        call_ensures(get_archive_url, (package_name, package_version), archive),
        package_name@.len() > 0,
        forall|i: int|
            0 <= i < package_name@.len() ==> {
                ||| 'a' <= #[trigger] package_name@[i] <= 'z'
                ||| 'A' <= package_name@[i] <= 'Z'
                ||| '0' <= package_name@[i] <= '9'
                ||| package_name@[i] == '_'
                ||| package_name@[i] == '-'
            },
        package_version@.len() > 0,
        package_version@[0] != '.',
        forall|i: int|
            0 <= i < package_version@.len() ==> {
                ||| 'a' <= #[trigger] package_version@[i] <= 'z'
                ||| 'A' <= package_version@[i] <= 'Z'
                ||| '0' <= package_version@[i] <= '9'
                ||| package_version@[i] == '.'
                ||| package_version@[i] == '-'
                ||| package_version@[i] == '_'
                ||| package_version@[i] == '+'
            },
    ensures
        human matches Ok(url) && url@ == "https://crates.io/crates/"@ + package_name@ + "/"@
            + package_version@,
        archive matches Ok(url) && url@ == "https://static.crates.io/crates/"@ + package_name@
            + "/"@ + package_name@ + "-"@ + package_version@ + ".crate"@,
{
}

/// Every release has both URLs, unless a `?` or a `#` is in its name or version.
pub proof fn releases_without_query_and_fragment_have_urls(
    package_name: &str,
    package_version: &str,
    human: Result<String, UrlError>,
    archive: Result<String, UrlError>,
)
    requires
        call_ensures(get_registry_human_url, (package_name, package_version), human),
        call_ensures(get_archive_url, (package_name, package_version), archive),
        !package_name@.contains('?'),
        !package_name@.contains('#'),
        !package_version@.contains('?'),
        !package_version@.contains('#'),
    ensures
        human is Ok,
        archive is Ok,
{
    reveal_strlit("https://crates.io/crates/");
    reveal_strlit("https://static.crates.io/crates/");
    reveal_strlit("/");
    reveal_strlit("-");
    reveal_strlit(".crate");
    let name = package_name@;
    let version = package_version@;
    assert forall|i: int| 0 <= i < name.len() implies #[trigger] name[i] != '?' && name[i]
        != '#' by {
        assert(name.contains(name[i]));
    }
    assert forall|i: int| 0 <= i < version.len() implies #[trigger] version[i] != '?' && version[i]
        != '#' by {
        assert(version.contains(version[i]));
    }
    assert(is_readable(human_route(name, version)));
    assert(is_readable(archive_route(name, version)));
}

} // verus!
