//! The throw-away Cargo project that depends on one release.

use vstd::prelude::*;
use vstd::string::StringExecFns;

use crate::text::text_chars;

verus! {

/// The source of the project's library.
pub const PROBE_LIBRARY: &'static str = "pub fn probe() {}\n";

/// The manifest of the project, up to the name of the crate that it depends on.
pub const MANIFEST_HEAD: &'static str = "[package]\n\
    name = \"thirdpass-rs-dependency-probe\"\n\
    version = \"0.0.0\"\n\
    edition = \"2018\"\n\
    publish = false\n\
    \n\
    [dependencies]\n\
    target-package = { package = \"";

/// What stands for one character in a TOML basic string.
pub open spec fn escaped_char(c: char) -> Seq<char> {
    if c == '\\' {
        seq!['\\', '\\']
    } else if c == '"' {
        seq!['\\', '"']
    } else {
        seq![c]
    }
}

/// A value as it is written between the quotes of a TOML basic string: a backslash goes
/// before every backslash and every quote.
pub open spec fn escaped(value: Seq<char>) -> Seq<char>
    decreases value.len(),
{
    if value.len() == 0 {
        Seq::empty()
    } else {
        escaped(value.drop_last()) + escaped_char(value.last())
    }
}

/// What a reader takes from behind the opening quote of a TOML basic string in which only
/// backslashes and quotes are escaped: the value, and what follows the closing quote.
pub open spec fn read_basic_string(text: Seq<char>) -> Option<(Seq<char>, Seq<char>)>
    decreases text.len(),
{
    if text.len() == 0 {
        None
    } else if text[0] == '"' {
        Some((Seq::empty(), text.skip(1)))
    } else if text[0] != '\\' {
        match read_basic_string(text.skip(1)) {
            Some((value, behind)) => Some((seq![text[0]] + value, behind)),
            None => None,
        }
    } else if text.len() > 1 && (text[1] == '\\' || text[1] == '"') {
        match read_basic_string(text.skip(2)) {
            Some((value, behind)) => Some((seq![text[1]] + value, behind)),
            None => None,
        }
    } else {
        None
    }
}

proof fn escaped_from_front(value: Seq<char>)
    requires
        value.len() > 0,
    ensures
        escaped(value) == escaped_char(value[0]) + escaped(value.drop_first()),
    decreases value.len(),
{
    if value.len() == 1 {
        assert(value.drop_last() == Seq::<char>::empty());
        assert(value.drop_first() == Seq::<char>::empty());
    } else {
        escaped_from_front(value.drop_last());
        assert(value.drop_last().drop_first() == value.drop_first().drop_last());
        assert(escaped(value) == escaped_char(value[0]) + (escaped(value.drop_first().drop_last())
            + escaped_char(value.last())));
    }
}

/// A reader gets the value back, and stops at the closing quote.
pub proof fn escaping_is_undone_by_reading(value: Seq<char>, behind: Seq<char>)
    ensures
        read_basic_string(escaped(value) + seq!['"'] + behind) == Some((value, behind)),
    decreases value.len(),
{
    let text = escaped(value) + seq!['"'] + behind;
    if value.len() == 0 {
        assert(text.skip(1) == behind);
    } else {
        escaped_from_front(value);
        let rest = escaped(value.drop_first()) + seq!['"'] + behind;
        escaping_is_undone_by_reading(value.drop_first(), behind);
        assert(text.skip(escaped_char(value[0]).len() as int) == rest);
        assert(value == seq![value[0]] + value.drop_first());
    }
}

/// Two values that are escaped alike are the same.
pub proof fn escaping_is_injective(a: Seq<char>, b: Seq<char>)
    requires
        escaped(a) == escaped(b),
    ensures
        a == b,
{
    escaping_is_undone_by_reading(a, Seq::empty());
    escaping_is_undone_by_reading(b, Seq::empty());
}

/// A value without backslash and quote is written as it is.
pub proof fn plain_values_are_not_changed(value: Seq<char>)
    requires
        forall|i: int| 0 <= i < value.len() ==> #[trigger] value[i] != '\\' && value[i] != '"',
    ensures
        escaped(value) == value,
    decreases value.len(),
{
    if value.len() > 0 {
        assert forall|i: int| 0 <= i < value.drop_last().len() implies #[trigger] value.drop_last()[i]
            != '\\' && value.drop_last()[i] != '"' by {
            assert(value.drop_last()[i] == value[i]);
        }
        plain_values_are_not_changed(value.drop_last());
        assert(value == value.drop_last() + seq![value.last()]);
    }
}

/// Escapes a value for a TOML basic string.
pub fn toml_basic_string(value: &str) -> (text: String)
    ensures
        text@ == escaped(value@),
{
    let chars = text_chars(value);
    let mut text = String::new();
    for i in 0..chars.len()
        invariant
            chars@ == value@,
            text@ == escaped(value@.take(i as int)),
    {
        assert(value@.take(i + 1).drop_last() == value@.take(i as int));
        if chars[i] == '\\' || chars[i] == '"' {
            text.push('\\');
        }
        text.push(chars[i]);
    }
    assert(value@.take(value@.len() as int) == value@);
    text
}

/// The manifest of a project that depends on exactly one release of a crate.
pub open spec fn manifest_text(package_name: Seq<char>, package_version: Seq<char>) -> Seq<char> {
    MANIFEST_HEAD@
        + escaped(package_name) + "\", version = \"="@ + escaped(package_version) + "\" }\n"@
}

/// The manifest tells the release: no two releases have the same one.
pub proof fn manifest_determines_release(
    name: Seq<char>,
    version: Seq<char>,
    other_name: Seq<char>,
    other_version: Seq<char>,
)
    requires
        manifest_text(name, version) == manifest_text(other_name, other_version),
    ensures
        name == other_name,
        version == other_version,
{
    reveal_strlit("\", version = \"=");
    reveal_strlit("\" }\n");
    let head = MANIFEST_HEAD@;
    let middle = "\", version = \"="@;
    let tail = "\" }\n"@;
    let behind = middle.skip(1) + escaped(version) + tail;
    let other_behind = middle.skip(1) + escaped(other_version) + tail;
    assert(manifest_text(name, version) == head + (escaped(name) + seq!['"'] + behind));
    assert(manifest_text(other_name, other_version) == head + (escaped(other_name) + seq!['"']
        + other_behind));
    assert(manifest_text(name, version).skip(head.len() as int) == escaped(name) + seq!['"']
        + behind);
    assert(manifest_text(other_name, other_version).skip(head.len() as int) == escaped(other_name)
        + seq!['"'] + other_behind);
    escaping_is_undone_by_reading(name, behind);
    escaping_is_undone_by_reading(other_name, other_behind);
    let end = tail.skip(1);
    assert(behind.skip(middle.len() - 1) == escaped(version) + seq!['"'] + end);
    assert(other_behind.skip(middle.len() - 1) == escaped(other_version) + seq!['"'] + end);
    escaping_is_undone_by_reading(version, end);
    escaping_is_undone_by_reading(other_version, end);
}

/// The files of a project.
#[derive(Debug)]
pub struct ProbeProject {
    /// `src/lib.rs`
    pub library: String,
    /// `Cargo.toml`
    pub manifest: String,
}

/// The project that depends on a release of a crate.
pub fn write_probe_project(package_name: &str, package_version: &str) -> (project: ProbeProject)
    ensures
        project.library@ == PROBE_LIBRARY@,
        project.manifest@ == manifest_text(package_name@, package_version@),
{
    let manifest = MANIFEST_HEAD.to_string().concat(
        toml_basic_string(package_name).as_str(),
    ).concat("\", version = \"=").concat(toml_basic_string(package_version).as_str()).concat(
        "\" }\n",
    );
    ProbeProject { library: PROBE_LIBRARY.to_string(), manifest }
}

proof fn escaping_joins(left: Seq<char>, right: Seq<char>)
    ensures
        escaped(left + right) == escaped(left) + escaped(right),
    decreases right.len(),
{
    if right.len() == 0 {
        assert(left + right == left);
    } else {
        escaping_joins(left, right.drop_last());
        assert((left + right).drop_last() == left + right.drop_last());
        assert((left + right).last() == right.last());
    }
}

/// A value is escaped character by character: what is joined is escaped in parts, a backslash
/// and a quote get a backslash before them, and any other character stays as it is.
pub proof fn values_are_escaped_character_by_character(
    value: &str,
    text: String,
    left: &str,
    left_text: String,
    right: &str,
    right_text: String,
)
    requires
        call_ensures(toml_basic_string, (value,), text),
        call_ensures(toml_basic_string, (left,), left_text),
        call_ensures(toml_basic_string, (right,), right_text),
    ensures
        value@ == left@ + right@ ==> text@ == left_text@ + right_text@,
        value@ == Seq::<char>::empty() ==> text@ == Seq::<char>::empty(),
        value@.len() == 1 && value@[0] == '\\' ==> text@ == seq!['\\', '\\'],
        value@.len() == 1 && value@[0] == '"' ==> text@ == seq!['\\', '"'],
        value@.len() == 1 && value@[0] != '\\' && value@[0] != '"' ==> text@ == value@,
{
    escaping_joins(left@, right@);
    if value@.len() == 1 {
        assert(value@.drop_last() == Seq::<char>::empty());
        assert(escaped(Seq::<char>::empty()) == Seq::<char>::empty());
        assert(escaped(value@) == escaped_char(value@[0]));
    }
}

/// The project depends on exactly the release: read as TOML, its manifest names the package,
/// and requires of its version that it equals the given one.
pub proof fn manifest_pins_the_release(
    package_name: &str,
    package_version: &str,
    project: ProbeProject,
    head: Seq<char>,
)
    requires
        call_ensures(write_probe_project, (package_name, package_version), project),
        head == "[package]\nname = \"thirdpass-rs-dependency-probe\"\nversion = \"0.0.0\"\nedition = \"2018\"\npublish = false\n\n[dependencies]\ntarget-package = { package = \""@,
    ensures
        project.library@ == "pub fn probe() {}\n"@,
        head.is_prefix_of(project.manifest@),
        ({
            let between = ", version = \""@;
            &&& read_basic_string(project.manifest@.skip(head.len() as int)) matches Some(
                (name, behind),
            )
            &&& name == package_name@
            &&& between.is_prefix_of(behind)
            &&& read_basic_string(behind.skip(between.len() as int)) == Some(
                ("="@ + package_version@, " }\n"@),
            )
        }),
{
    reveal_strlit("\", version = \"=");
    reveal_strlit(", version = \"");
    reveal_strlit("=");
    reveal_strlit("\" }\n");
    reveal_strlit(" }\n");
    let name = package_name@;
    let version = package_version@;
    let text = project.manifest@;
    let between = ", version = \""@;
    let end = " }\n"@;
    let behind = between + (escaped("="@ + version) + seq!['"'] + end);
    assert(escaped("="@ + version) == "="@ + escaped(version)) by {
        escaping_joins("="@, version);
        plain_values_are_not_changed("="@);
    }
    assert(text.skip(head.len() as int) == escaped(name) + seq!['"'] + behind);
    assert(text.subrange(0, head.len() as int) == head);
    escaping_is_undone_by_reading(name, behind);
    assert(behind.subrange(0, between.len() as int) == between);
    assert(behind.skip(between.len() as int) == escaped("="@ + version) + seq!['"'] + end);
    escaping_is_undone_by_reading("="@ + version, end);
}

/// The manifest holds the name and the version, each escaped, at its end, with `=` before the
/// version.
pub proof fn manifest_ends_in_name_and_version(
    package_name: &str,
    package_version: &str,
    project: ProbeProject,
    escaped_name: String,
    escaped_version: String,
)
    requires
        call_ensures(write_probe_project, (package_name, package_version), project),
        call_ensures(toml_basic_string, (package_name,), escaped_name),
        call_ensures(toml_basic_string, (package_version,), escaped_version),
    ensures
        ("target-package = { package = \""@ + escaped_name@ + "\", version = \"="@
            + escaped_version@ + "\" }\n"@).is_suffix_of(project.manifest@),
{
    reveal_strlit(
        "[package]\nname = \"thirdpass-rs-dependency-probe\"\nversion = \"0.0.0\"\nedition = \"2018\"\npublish = false\n\n[dependencies]\ntarget-package = { package = \"",
    );
    reveal_strlit("target-package = { package = \"");
    let head = MANIFEST_HEAD@;
    let start = "target-package = { package = \""@;
    let rest = escaped_name@ + "\", version = \"="@ + escaped_version@ + "\" }\n"@;
    let text = project.manifest@;
    assert(text == head + rest);
    assert(head.subrange(head.len() - start.len(), head.len() as int) == start);
    let end = "target-package = { package = \""@ + escaped_name@ + "\", version = \"="@
        + escaped_version@ + "\" }\n"@;
    assert(end == start + rest);
    assert(text.subrange(text.len() - end.len(), text.len() as int) == end);
}

} // verus!
