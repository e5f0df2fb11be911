//! From a test's identity to the place of its golden file.
//!
//! A test is known by the path of its source file and by the full path of its
//! function (`crate::module::tests::name`). Its golden file lies in `testdata`
//! beside the source file and is called after the function.

use vstd::prelude::*;
use vstd::string::StringExecFns;

use crate::error::{Failure, GoldieError};
use crate::text::{
    chars_of, ends_with, ends_with_at, find_last, last_index_of, lemma_last_index_at,
    lemma_last_index_of, same_text, starts_with,
};

verus! {

/// How golden files are laid out below `testdata`.
#[derive(Debug, Clone, Copy, PartialEq, Eq, Structural)]
pub enum Layout {
    /// Every golden file lies directly in `testdata`.
    Flat,
    /// The golden files of a source file that is no root module lie in a
    /// directory of their own, called after that file.
    PerModule,
}

/// What the compiler appends to a function path for each closure the call sits in.
pub open spec fn closure_marker() -> Seq<char> {
    "::{{closure}}"@
}

/// The directory that holds the golden files.
pub open spec fn data_dir() -> Seq<char> {
    "testdata/"@
}

/// The extension of a golden file.
pub open spec fn golden_extension() -> Seq<char> {
    ".golden"@
}

/// `function_path` without the closure markers at its end.
pub open spec fn strip_closures(function_path: Seq<char>) -> Seq<char>
    decreases function_path.len(),
    via strip_closures_decreases
{
    if ends_with(function_path, closure_marker()) {
        strip_closures(function_path.subrange(0, function_path.len() - closure_marker().len()))
    } else {
        function_path
    }
}

#[via_fn]
proof fn strip_closures_decreases(function_path: Seq<char>) {
    reveal_strlit("::{{closure}}");
}

/// A `::` starts at index `i` of `s`.
pub open spec fn separator_at(s: Seq<char>, i: int) -> bool {
    0 <= i && i + 1 < s.len() && s[i] == ':' && s[i + 1] == ':'
}

/// The greatest index below `end` at which a `::` starts, or -1 where none does.
pub open spec fn last_separator(s: Seq<char>, end: int) -> int
    decreases end,
{
    if end <= 0 {
        -1
    } else if separator_at(s, end - 1) {
        end - 1
    } else {
        last_separator(s, end - 1)
    }
}

/// The name of the function itself: what follows the last `::` once the closure
/// markers are gone. A path without `::` names no function.
pub open spec fn simple_name(function_path: Seq<char>) -> Option<Seq<char>> {
    let named = strip_closures(function_path);
    let at = last_separator(named, named.len() as int);
    if at < 0 {
        None
    } else {
        Some(named.subrange(at + 2, named.len() as int))
    }
}

/// The directory of `source_path`, with its closing `/`; empty for a bare file name.
pub open spec fn parent_dir(source_path: Seq<char>) -> Seq<char> {
    source_path.subrange(0, last_index_of(source_path, '/', source_path.len() as int) + 1)
}

/// The last component of `source_path`.
pub open spec fn file_name(source_path: Seq<char>) -> Seq<char> {
    source_path.subrange(
        last_index_of(source_path, '/', source_path.len() as int) + 1,
        source_path.len() as int,
    )
}

/// `name` without its extension. A name that only starts with a dot has none.
pub open spec fn file_stem(name: Seq<char>) -> Seq<char> {
    let dot = last_index_of(name, '.', name.len() as int);
    if dot <= 0 {
        name
    } else {
        name.subrange(0, dot)
    }
}

/// The file names, without extension, that stand for the module of their own
/// directory: the root of a crate (`lib`, `main`) and the root of a module that
/// is a directory (`mod`).
pub open spec fn is_root_module(stem: Seq<char>) -> bool {
    stem == "lib"@ || stem == "main"@ || stem == "mod"@
}

/// The directory below `testdata` that `layout` gives to the tests of `source_path`.
pub open spec fn module_dir(source_path: Seq<char>, layout: Layout) -> Seq<char> {
    let stem = file_stem(file_name(source_path));
    match layout {
        Layout::Flat => Seq::<char>::empty(),
        Layout::PerModule => if is_root_module(stem) || stem.len() == 0 {
            Seq::<char>::empty()
        } else {
            stem + seq!['/']
        },
    }
}

/// The directory that holds the file at `path`: what stands before the last
/// `/`, the root itself for a file directly below it, and nothing for a bare
/// file name.
pub open spec fn directory_of(path: Seq<char>) -> Seq<char> {
    let slash = last_index_of(path, '/', path.len() as int);
    if slash < 0 {
        Seq::<char>::empty()
    } else if slash == 0 {
        path.subrange(0, 1)
    } else {
        path.subrange(0, slash)
    }
}

/// Where the golden file of the function called `name` in `source_path` lies.
pub open spec fn golden_path(source_path: Seq<char>, name: Seq<char>, layout: Layout) -> Seq<
    char,
> {
    parent_dir(source_path) + data_dir() + module_dir(source_path, layout) + name
        + golden_extension()
}

/// The place of a test's golden file, or the failure that its function path earns.
pub open spec fn resolved(source_path: Seq<char>, function_path: Seq<char>, layout: Layout)
    -> Result<Seq<char>, Failure> {
    match simple_name(function_path) {
        Some(name) => Ok(golden_path(source_path, name, layout)),
        None => Err(Failure::MalformedIdentifier { function_path: strip_closures(function_path) }),
    }
}

/// The model of what [`resolve`] returns.
pub open spec fn resolution(r: Result<String, GoldieError>) -> Result<Seq<char>, Failure> {
    match r {
        Ok(path) => Ok(path@),
        Err(e) => Err(e@),
    }
}

/// The length that `function_path` keeps once its closure markers are gone.
fn stripped_len(function_path: &Vec<char>) -> (end: usize)
    ensures
        end <= function_path@.len(),
        function_path@.subrange(0, end as int) == strip_closures(function_path@),
{
    let marker = chars_of("::{{closure}}");
    proof {
        reveal_strlit("::{{closure}}");
    }
    let mut end: usize = function_path.len();
    assert(function_path@.subrange(0, end as int) =~= function_path@);
    while ends_with_at(function_path, end, &marker)
        invariant
            end <= function_path@.len(),
            marker@ == closure_marker(),
            marker@.len() == 13,
            strip_closures(function_path@.subrange(0, end as int)) == strip_closures(
                function_path@,
            ),
        decreases end,
    {
        let ghost before = function_path@.subrange(0, end as int);
        end = end - marker.len();
        assert(before.subrange(0, before.len() - closure_marker().len())
            =~= function_path@.subrange(0, end as int));
    }
    end
}

/// The index at which the last `::` of the first `end` characters starts.
fn find_last_separator(s: &Vec<char>, end: usize) -> (r: Option<usize>)
    requires
        end <= s@.len(),
    ensures
        match r {
            Some(i) => i + 1 < end && i as int == last_separator(
                s@.subrange(0, end as int),
                end as int,
            ),
            None => last_separator(s@.subrange(0, end as int), end as int) == -1,
        },
{
    let ghost head = s@.subrange(0, end as int);
    let mut i: usize = end;
    while i > 0
        invariant
            i <= end <= s@.len(),
            head == s@.subrange(0, end as int),
            last_separator(head, end as int) == last_separator(head, i as int),
        decreases i,
    {
        if i < end && s[i - 1] == ':' && s[i] == ':' {
            assert(separator_at(head, i - 1));
            return Some(i - 1);
        }
        assert(!separator_at(head, i - 1));
        i -= 1;
    }
    None
}

/// Resolves the golden file of the test `function_path` in `source_path`.
///
/// The path is `testdata` beside the source file, then the directory that
/// `layout` asks for, then the function's own name with the extension
/// `.golden`. Closure markers at the end of `function_path` do not count. A
/// `function_path` without `::` is refused.
pub fn resolve(source_path: &str, function_path: &str, layout: Layout) -> (r: Result<
    String,
    GoldieError,
>)
    ensures
        resolution(r) == resolved(source_path@, function_path@, layout),
{
    let function = chars_of(function_path);
    let end = stripped_len(&function);
    let at = match find_last_separator(&function, end) {
        Some(at) => at,
        None => {
            let named = function_path.substring_char(0, end);
            return Err(GoldieError::MalformedIdentifier { function_path: named.to_owned() });
        },
    };
    let name = function_path.substring_char(at + 2, end);
    assert(name@ =~= strip_closures(function_path@).subrange(at + 2, end as int));

    let source = chars_of(source_path);
    let dir_end: usize = match find_last(&source, '/', source.len()) {
        Some(slash) => slash + 1,
        None => 0,
    };
    let dir = source_path.substring_char(0, dir_end);
    let mut path = String::from_str(dir);
    path.append("testdata/");
    match layout {
        Layout::Flat => {},
        Layout::PerModule => {
            let file = source_path.substring_char(dir_end, source.len());
            let file_chars = chars_of(file);
            let stem_end: usize = match find_last(&file_chars, '.', file_chars.len()) {
                Some(dot) => if dot == 0 {
                    file_chars.len()
                } else {
                    dot
                },
                None => file_chars.len(),
            };
            let stem = file.substring_char(0, stem_end);
            assert(stem@ =~= file_stem(file_name(source_path@)));
            let root = same_text(stem, "lib") || same_text(stem, "main") || same_text(stem, "mod");
            if !root && stem_end > 0 {
                path.append(stem);
                path.append("/");
                proof {
                    reveal_strlit("/");
                    assert("/"@ =~= seq!['/']);
                }
            }
        },
    }
    path.append(name);
    path.append(".golden");
    assert(path@ =~= golden_path(source_path@, name@, layout));
    Ok(path)
}

/// What `last_separator` finds: a `::` starts there, and none starts later below `end`.
pub proof fn lemma_last_separator(s: Seq<char>, end: int)
    requires
        0 <= end <= s.len(),
    ensures
        -1 <= last_separator(s, end) < end,
        last_separator(s, end) >= 0 ==> separator_at(s, last_separator(s, end)),
        forall|j: int| last_separator(s, end) < j < end ==> !separator_at(s, j),
    decreases end,
{
    if end > 0 && !separator_at(s, end - 1) {
        lemma_last_separator(s, end - 1);
    }
}

/// `function_path` as the compiler gives it for a call that sits `depth` closures
/// deep in the function.
pub open spec fn nested_in_closures(function_path: Seq<char>, depth: nat) -> Seq<char>
    decreases depth,
{
    if depth == 0 {
        function_path
    } else {
        nested_in_closures(function_path, (depth - 1) as nat) + closure_marker()
    }
}

/// One closure marker more at the end changes nothing of what is left after stripping.
pub proof fn lemma_strip_one_marker(function_path: Seq<char>)
    ensures
        strip_closures(function_path + closure_marker()) == strip_closures(function_path),
{
    reveal_strlit("::{{closure}}");
    let longer = function_path + closure_marker();
    assert(longer.subrange(longer.len() - closure_marker().len(), longer.len() as int)
        =~= closure_marker());
    assert(longer.subrange(0, longer.len() - closure_marker().len()) =~= function_path);
}

/// What is left after stripping ends in no closure marker.
pub proof fn law_stripped_ends_in_no_closure(function_path: Seq<char>)
    ensures
        !ends_with(strip_closures(function_path), closure_marker()),
    decreases function_path.len(),
{
    reveal_strlit("::{{closure}}");
    if ends_with(function_path, closure_marker()) {
        law_stripped_ends_in_no_closure(
            function_path.subrange(0, function_path.len() - closure_marker().len()),
        );
    }
}

/// The simple name is what follows the last `::` of the stripped path, and holds
/// no `::` itself; a path has no simple name exactly where it holds no `::`.
pub proof fn law_simple_name_follows_last_separator(function_path: Seq<char>)
    ensures
        match simple_name(function_path) {
            Some(name) => {
                let named = strip_closures(function_path);
                &&& exists|at: int| #[trigger]
                    separator_at(named, at) && name == named.subrange(at + 2, named.len() as int)
                &&& forall|j: int| !separator_at(name, j)
            },
            None => forall|j: int| !separator_at(strip_closures(function_path), j),
        },
{
    let named = strip_closures(function_path);
    let at = last_separator(named, named.len() as int);
    lemma_last_separator(named, named.len() as int);
    if at >= 0 {
        let name = named.subrange(at + 2, named.len() as int);
        assert(separator_at(named, at));
        assert forall|j: int| !separator_at(name, j) by {
            if separator_at(name, j) {
                assert(separator_at(named, at + 2 + j));
            }
        }
    } else {
        assert forall|j: int| !separator_at(named, j) by {
            if separator_at(named, j) {
                assert(at < j < named.len());
            }
        }
    }
}

/// Path determinism: whatever two calls of [`resolve`] on one test return, they
/// return the same.
pub proof fn law_resolve_is_deterministic(
    source_path: Seq<char>,
    function_path: Seq<char>,
    layout: Layout,
    first: Result<String, GoldieError>,
    second: Result<String, GoldieError>,
)
    requires
        resolution(first) == resolved(source_path, function_path, layout),
        resolution(second) == resolved(source_path, function_path, layout),
    ensures
        resolution(first) == resolution(second),
{
}

/// Closure stripping: a call that sits in closures of a test, however deep,
/// resolves as a call in the test itself does.
pub proof fn law_closures_do_not_count(
    source_path: Seq<char>,
    function_path: Seq<char>,
    depth: nat,
    layout: Layout,
)
    ensures
        resolved(source_path, nested_in_closures(function_path, depth), layout) == resolved(
            source_path,
            function_path,
            layout,
        ),
    decreases depth,
{
    if depth > 0 {
        let inner = nested_in_closures(function_path, (depth - 1) as nat);
        lemma_strip_one_marker(inner);
        law_closures_do_not_count(source_path, function_path, (depth - 1) as nat, layout);
    }
}

/// Two tests of one source file whose functions have the same simple name share
/// their golden file, whatever modules the functions sit in.
pub proof fn law_same_name_same_file(
    source_path: Seq<char>,
    first: Seq<char>,
    second: Seq<char>,
    layout: Layout,
)
    requires
        simple_name(first) is Some,
        simple_name(first) == simple_name(second),
    ensures
        resolved(source_path, first, layout) == resolved(source_path, second, layout),
{
}

/// Functions of one source file with different simple names have different
/// golden files.
pub proof fn law_distinct_names_distinct_files(
    source_path: Seq<char>,
    first: Seq<char>,
    second: Seq<char>,
    layout: Layout,
)
    requires
        first != second,
    ensures
        golden_path(source_path, first, layout) != golden_path(source_path, second, layout),
{
    let head = parent_dir(source_path) + data_dir() + module_dir(source_path, layout);
    let a = golden_path(source_path, first, layout);
    let b = golden_path(source_path, second, layout);
    if a == b {
        assert(a.len() == head.len() + first.len() + golden_extension().len());
        assert(b.len() == head.len() + second.len() + golden_extension().len());
        assert(first.len() == second.len());
        assert forall|i: int| 0 <= i < first.len() implies first[i] == second[i] by {
            assert(a[head.len() + i] == first[i]);
            assert(b[head.len() + i] == second[i]);
        }
        assert(first =~= second);
    }
}

/// The tests of a root module (`lib`, `main`, `mod`) keep their golden files
/// directly in `testdata` under either layout.
pub proof fn law_root_modules_lie_flat(source_path: Seq<char>, name: Seq<char>)
    requires
        is_root_module(file_stem(file_name(source_path))),
    ensures
        golden_path(source_path, name, Layout::PerModule) == golden_path(
            source_path,
            name,
            Layout::Flat,
        ),
{
}

/// A source path is its directory followed by its file name; the directory is
/// empty or ends in `/`, and the file name holds no `/`.
pub proof fn law_source_path_splits(source_path: Seq<char>)
    ensures
        parent_dir(source_path) + file_name(source_path) == source_path,
        parent_dir(source_path).len() > 0 ==> parent_dir(source_path).last() == '/',
        forall|i: int|
            0 <= i < file_name(source_path).len() ==> file_name(source_path)[i] != '/',
{
    lemma_last_index_of(source_path, '/', source_path.len() as int);
    assert(parent_dir(source_path) + file_name(source_path) =~= source_path);
}

/// Files of the same name in different directories keep their golden files
/// apart: the golden file lies below the directory of its source file.
pub proof fn law_golden_file_lies_beside_source(
    source_path: Seq<char>,
    name: Seq<char>,
    layout: Layout,
)
    ensures
        starts_with(golden_path(source_path, name, layout), parent_dir(source_path) + data_dir()),
        ends_with(golden_path(source_path, name, layout), name + golden_extension()),
{
    let path = golden_path(source_path, name, layout);
    let head = parent_dir(source_path) + data_dir();
    let tail = name + golden_extension();
    assert(path.subrange(0, head.len() as int) =~= head);
    assert(path.subrange(path.len() - tail.len(), path.len() as int) =~= tail);
}

/// The directory of a golden file is `testdata` beside the source file, or the
/// module's own directory below it: what [`golden_path`] puts before the
/// function's name, without the closing `/`.
pub proof fn law_golden_file_lies_in_data_dir(
    source_path: Seq<char>,
    name: Seq<char>,
    layout: Layout,
)
    requires
        forall|i: int| 0 <= i < name.len() ==> name[i] != '/',
    ensures
        directory_of(golden_path(source_path, name, layout)) + seq!['/'] == parent_dir(
            source_path,
        ) + data_dir() + module_dir(source_path, layout),
{
    reveal_strlit("testdata/");
    reveal_strlit(".golden");
    let head = parent_dir(source_path) + data_dir() + module_dir(source_path, layout);
    let path = golden_path(source_path, name, layout);
    let slash = head.len() - 1;
    assert(head.last() == '/');
    assert(path[slash] == '/');
    assert forall|j: int| slash < j < path.len() implies path[j] != '/' by {
        if j < head.len() + name.len() {
            assert(path[j] == name[j - head.len()]);
        } else {
            assert(path[j] == golden_extension()[j - head.len() - name.len()]);
        }
    }
    lemma_last_index_at(path, '/', path.len() as int, slash);
    assert(directory_of(path) + seq!['/'] =~= head);
}

} // verus!
