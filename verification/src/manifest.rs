//! The manifest of the generated project.

use vstd::prelude::*;
use vstd::string::*;
use crate::packages::{Package, NODEMON_NAME};
use crate::sequences::{occurs_at, occurs_in};

verus! {

pub const MANIFEST_HEAD: &'static str = "{\n  \"name\": \"";

pub const MANIFEST_BODY: &'static str =
    "\",\n  \"version\": \"1.0.0\",\n  \"description\": \"\",\n  \"main\": \"src/index.js\",\n  \"scripts\": {\n    \"start\": \"node src/index.js\",\n    \"dev\": \"nodemon src/index.js\"\n  },\n  \"dependencies\": {\n";

pub const MANIFEST_DEVELOPMENT: &'static str = "\n  },\n  \"devDependencies\": {\n";

pub const MANIFEST_TAIL: &'static str = "\n  }\n}";

pub const ENTRY_OPEN: &'static str = "    \"";

pub const ENTRY_MIDDLE: &'static str = "\": \"";

pub const ENTRY_CLOSE: &'static str = "\"";

pub const ENTRY_SEPARATOR: &'static str = ",\n";

/// The line that declares one package: its quoted name, a colon, its quoted
/// version constraint.
pub open spec fn entry_line(package: Package) -> Seq<char> {
    ENTRY_OPEN@ + package.name_text() + ENTRY_MIDDLE@ + package.constraint_text() + ENTRY_CLOSE@
}

/// `lines` with `separator` between each two neighbours, and none before the
/// first or after the last.
pub open spec fn joined(lines: Seq<Seq<char>>, separator: Seq<char>) -> Seq<char>
    decreases lines.len(),
{
    if lines.len() == 0 {
        Seq::<char>::empty()
    } else if lines.len() == 1 {
        lines[0]
    } else {
        joined(lines.drop_last(), separator) + separator + lines.last()
    }
}

/// The body of a dependency mapping: one line per package, in the order
/// given, joined by a comma and a line break.
pub open spec fn entries_text(deps: Seq<Package>) -> Seq<char> {
    joined(deps.map_values(|p: Package| entry_line(p)), ENTRY_SEPARATOR@)
}

/// The manifest document: the fixed fields around the project's name, then
/// the runtime mapping and the development mapping.
pub open spec fn manifest_text(
    name: Seq<char>,
    runtime: Seq<Package>,
    development: Seq<Package>,
) -> Seq<char> {
    MANIFEST_HEAD@ + name + MANIFEST_BODY@ + entries_text(runtime) + MANIFEST_DEVELOPMENT@
        + entries_text(development) + MANIFEST_TAIL@
}

/// Joining one more line puts the separator before it, unless it is the
/// first.
pub proof fn lemma_joined_push(lines: Seq<Seq<char>>, separator: Seq<char>, line: Seq<char>)
    ensures
        joined(lines.push(line), separator) == if lines.len() == 0 {
            line
        } else {
            joined(lines, separator) + separator + line
        },
{
    assert(lines.push(line).drop_last() =~= lines);
}

fn append_entries(out: &mut String, deps: &Vec<Package>)
    ensures
        final(out)@ == old(out)@ + entries_text(deps@),
{
    let ghost before = out@;
    let ghost line_of = |p: Package| entry_line(p);
    let mut i: usize = 0;
    while i < deps.len()
        invariant
            i <= deps.len(),
            line_of == (|p: Package| entry_line(p)),
            out@ == before + entries_text(deps@.take(i as int)),
        decreases deps.len() - i,
    {
        if i > 0 {
            out.append(ENTRY_SEPARATOR);
        }
        let package = deps[i];
        out.append(ENTRY_OPEN);
        out.append(package.name());
        out.append(ENTRY_MIDDLE);
        out.append(package.version_constraint());
        out.append(ENTRY_CLOSE);
        proof {
            let earlier = deps@.take(i as int);
            let lines = earlier.map_values(line_of);
            assert(deps@.take(i + 1) =~= earlier.push(package));
            assert(earlier.push(package).map_values(line_of) =~= lines.push(entry_line(package)));
            lemma_joined_push(lines, ENTRY_SEPARATOR@, entry_line(package));
        }
        i += 1;
    }
    assert(deps@.take(deps.len() as int) =~= deps@);
}

/// Emits the manifest of the project `name` with the given dependency lists.
/// The name is written as it is given.
pub fn emit_manifest(name: &str, runtime: &Vec<Package>, development: &Vec<Package>) -> (doc:
    String)
    ensures
        doc@ == manifest_text(name@, runtime@, development@),
{
    let mut doc = String::from_str(MANIFEST_HEAD);
    doc.append(name);
    doc.append(MANIFEST_BODY);
    append_entries(&mut doc, runtime);
    doc.append(MANIFEST_DEVELOPMENT);
    append_entries(&mut doc, development);
    doc.append(MANIFEST_TAIL);
    doc
}

/// The auto-reload runner is declared for the manifest's own sake: the script
/// that starts the project for development names it.
pub proof fn lemma_development_script_names_runner()
    ensures
        occurs_in(NODEMON_NAME@, MANIFEST_BODY@),
{
    reveal_strlit("nodemon");
    reveal_strlit(
        "\",\n  \"version\": \"1.0.0\",\n  \"description\": \"\",\n  \"main\": \"src/index.js\",\n  \"scripts\": {\n    \"start\": \"node src/index.js\",\n    \"dev\": \"nodemon src/index.js\"\n  },\n  \"dependencies\": {\n",
    );
    assert(MANIFEST_BODY@.subrange(133, 140) =~= NODEMON_NAME@);
    assert(occurs_at(NODEMON_NAME@, MANIFEST_BODY@, 133));
}

/// Emitting is repeatable: the document depends on the name and the two
/// lists and on nothing else, so that a second call with the same name and
/// the same lists returns the same text, byte for byte.
pub proof fn lemma_manifest_is_repeatable(
    first_name: Seq<char>,
    first_runtime: Seq<Package>,
    first_development: Seq<Package>,
    second_name: Seq<char>,
    second_runtime: Seq<Package>,
    second_development: Seq<Package>,
)
    requires
        first_name == second_name,
        first_runtime == second_runtime,
        first_development == second_development,
    ensures
        manifest_text(first_name, first_runtime, first_development) == manifest_text(
            second_name,
            second_runtime,
            second_development,
        ),
{
}

} // verus!
