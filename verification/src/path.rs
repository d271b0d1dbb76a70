//! Path strings: the final component of a path, by which a page is titled
//! when no title is configured.
//!
//! A path is a sequence of characters in which `/` separates components,
//! on every platform. Empty components (from repeated or trailing
//! separators) and lone dots name nothing; a path that ends in `..` has no
//! file name.

use vstd::prelude::*;
use vstd::string::StringExecFns;
use vstd::string::StrSliceExecFns;
use crate::text::chars_of;

verus! {

/// The character that separates the components of a path.
pub open spec fn is_separator(c: char) -> bool {
    c == '/'
}

/// Whether the last character of `path` is a lone dot: a `.` that follows a
/// separator and so forms the component `.` at the end of the path.
pub open spec fn ends_in_lone_dot(path: Seq<char>) -> bool {
    &&& path.len() >= 2
    &&& path[path.len() - 1] == '.'
    &&& is_separator(path[path.len() - 2])
}

/// The length of `path` once trailing separators and lone dots are dropped.
pub open spec fn trimmed_len(path: Seq<char>) -> nat
    decreases path.len(),
{
    if path.len() == 0 {
        0
    } else if is_separator(path.last()) || ends_in_lone_dot(path) {
        trimmed_len(path.drop_last())
    } else {
        path.len()
    }
}

/// The index at which the component of `path` that ends before `end` starts.
pub open spec fn component_start(path: Seq<char>, end: nat) -> nat
    decreases end,
{
    if end == 0 || end > path.len() || is_separator(path[end - 1]) {
        end
    } else {
        component_start(path, (end - 1) as nat)
    }
}

/// The component `.`, which stands for the directory itself.
pub open spec fn current_dir() -> Seq<char> {
    seq!['.']
}

/// The component `..`, which stands for the parent directory.
pub open spec fn parent_dir() -> Seq<char> {
    seq!['.', '.']
}

/// The last component of `path`, trailing separators and lone dots aside.
pub open spec fn last_component(path: Seq<char>) -> Seq<char> {
    let end = trimmed_len(path);
    path.subrange(component_start(path, end) as int, end as int)
}

/// The file name of `path`: its last component, unless that is empty, `.`
/// or `..`.
pub open spec fn final_component(path: Seq<char>) -> Option<Seq<char>> {
    let name = last_component(path);
    if name.len() == 0 || name == current_dir() || name == parent_dir() {
        None
    } else {
        Some(name)
    }
}

/// The character of `path` at `at` is a lone dot: a `.` with a separator
/// before it and a separator, or nothing, behind it.
pub open spec fn is_lone_dot(path: Seq<char>, at: int) -> bool {
    &&& 0 < at < path.len()
    &&& path[at] == '.'
    &&& is_separator(path[at - 1])
    &&& (at + 1 == path.len() || is_separator(path[at + 1]))
}

/// From `from` on, `path` holds separators and lone dots only.
pub open spec fn names_nothing_from(path: Seq<char>, from: int) -> bool {
    forall|at: int|
        from <= at < path.len() ==> is_separator(#[trigger] path[at]) || is_lone_dot(path, at)
}

/// `path` from `start` up to `end` is a component: not empty, free of
/// separators, and with a separator or an end of the path on either side.
pub open spec fn is_component(path: Seq<char>, start: int, end: int) -> bool {
    &&& 0 <= start < end <= path.len()
    &&& forall|at: int| start <= at < end ==> !is_separator(#[trigger] path[at])
    &&& (start == 0 || is_separator(path[start - 1]))
    &&& (end == path.len() || is_separator(path[end]))
}

/// `path` from `start` up to `end` is the component that names the path:
/// a component that is no lone dot, with nothing but separators and lone
/// dots behind it.
pub open spec fn is_naming_component(path: Seq<char>, start: int, end: int) -> bool {
    &&& is_component(path, start, end)
    &&& !is_lone_dot(path, start)
    &&& names_nothing_from(path, end)
}

proof fn lemma_trimmed_tail_names_nothing(path: Seq<char>)
    ensures
        trimmed_len(path) <= path.len(),
        names_nothing_from(path, trimmed_len(path) as int),
        trimmed_len(path) > 0 ==> !is_separator(path[trimmed_len(path) - 1]) && !is_lone_dot(
            path,
            trimmed_len(path) - 1,
        ),
    decreases path.len(),
{
    if path.len() > 0 && (is_separator(path.last()) || ends_in_lone_dot(path)) {
        let shorter = path.drop_last();
        lemma_trimmed_tail_names_nothing(shorter);
        let kept = trimmed_len(path) as int;
        assert forall|at: int| kept <= at < path.len() implies is_separator(#[trigger] path[at])
            || is_lone_dot(path, at) by {
            if at < shorter.len() {
                assert(path[at] == shorter[at]);
                if !is_separator(shorter[at]) {
                    assert(is_lone_dot(shorter, at));
                    assert(path[at - 1] == shorter[at - 1]);
                    if at + 1 < shorter.len() {
                        assert(path[at + 1] == shorter[at + 1]);
                    }
                }
            }
        }
        if kept > 0 {
            assert(path[kept - 1] == shorter[kept - 1]);
            if kept >= 2 {
                assert(path[kept - 2] == shorter[kept - 2]);
            }
            if kept < shorter.len() {
                assert(path[kept] == shorter[kept]);
                assert(is_separator(shorter[kept]) || is_lone_dot(shorter, kept));
            }
        }
    }
}

proof fn lemma_component_start_bounds(path: Seq<char>, end: nat)
    requires
        end <= path.len(),
    ensures
        component_start(path, end) <= end,
        forall|at: int| component_start(path, end) <= at < end ==> !is_separator(#[trigger] path[at]),
        component_start(path, end) == 0 || is_separator(path[component_start(path, end) - 1]),
    decreases end,
{
    if !(end == 0 || is_separator(path[end - 1])) {
        lemma_component_start_bounds(path, (end - 1) as nat);
    }
}

/// A path that is not all separators and lone dots has a naming component,
/// and `last_component` is that component.
pub proof fn lemma_last_component_names_the_path(path: Seq<char>)
    ensures
        trimmed_len(path) <= path.len(),
        component_start(path, trimmed_len(path)) <= trimmed_len(path),
        trimmed_len(path) > 0 ==> is_naming_component(
            path,
            component_start(path, trimmed_len(path)) as int,
            trimmed_len(path) as int,
        ),
        trimmed_len(path) == 0 ==> names_nothing_from(path, 0) && last_component(path).len() == 0,
{
    lemma_trimmed_tail_names_nothing(path);
    lemma_component_start_bounds(path, trimmed_len(path));
}

/// A path has one naming component at most: where `path` from `start` up
/// to `end` is one, `last_component` is that part of the path.
pub proof fn lemma_naming_component_is_the_last(path: Seq<char>, start: int, end: int)
    requires
        is_naming_component(path, start, end),
    ensures
        trimmed_len(path) == end,
        component_start(path, end as nat) == start,
        last_component(path) == path.subrange(start, end),
    decreases path.len() - end,
{
    if end < path.len() {
        let shorter = path.drop_last();
        assert(is_separator(path[path.len() - 1]) || is_lone_dot(path, path.len() - 1));
        assert(is_naming_component(shorter, start, end)) by {
            assert forall|at: int| start <= at < end implies !is_separator(
                #[trigger] shorter[at],
            ) by {
                assert(shorter[at] == path[at]);
            }
            assert forall|at: int| end <= at < shorter.len() implies is_separator(
                #[trigger] shorter[at],
            ) || is_lone_dot(shorter, at) by {
                assert(shorter[at] == path[at]);
                assert(is_separator(path[at]) || is_lone_dot(path, at));
            }
        }
        lemma_naming_component_is_the_last(shorter, start, end);
        lemma_component_start_agrees(path, shorter, end as nat);
    } else {
        assert(!is_separator(path[end - 1]));
        if ends_in_lone_dot(path) {
            assert(start == end - 1);
        }
    }
    lemma_component_start_bounds(path, end as nat);
    let found = component_start(path, end as nat) as int;
    if found < start {
        assert(!is_separator(path[start - 1]));
    }
    if start < found {
        assert(!is_separator(path[found - 1]));
    }
}

proof fn lemma_component_start_agrees(path: Seq<char>, shorter: Seq<char>, end: nat)
    requires
        shorter.len() <= path.len(),
        end <= shorter.len(),
        forall|at: int| 0 <= at < shorter.len() ==> shorter[at] == path[at],
    ensures
        component_start(path, end) == component_start(shorter, end),
    decreases end,
{
    if end > 0 && !is_separator(path[end - 1]) {
        lemma_component_start_agrees(path, shorter, (end - 1) as nat);
    }
}

/// The final component of `path`, if it names a file.
///
/// `None` for the empty path, for a path made of separators and dots alone,
/// and for one that ends in `..`.
pub fn file_name(path: &str) -> (name: Option<String>)
    ensures
        name matches Some(n) ==> final_component(path@) == Some(n@),
        name is None ==> final_component(path@) is None,
{
    let chars = chars_of(path);
    let mut end: usize = chars.len();
    assert(chars@.take(end as int) == chars@);
    while end > 0 && (chars[end - 1] == '/' || (end >= 2 && chars[end - 1] == '.' && chars[end - 2]
        == '/'))
        invariant
            end <= chars.len(),
            trimmed_len(chars@) == trimmed_len(chars@.take(end as int)),
        decreases end,
    {
        assert(chars@.take(end as int).drop_last() == chars@.take(end as int - 1));
        end = end - 1;
    }
    proof {
        lemma_trimmed_tail_names_nothing(chars@.take(end as int));
    }
    assert(trimmed_len(chars@) == end);
    let mut start: usize = end;
    while start > 0 && chars[start - 1] != '/'
        invariant
            start <= end <= chars.len(),
            component_start(chars@, end as nat) == component_start(chars@, start as nat),
        decreases start,
    {
        start = start - 1;
    }
    let len: usize = end - start;
    let dots = (len == 1 && chars[start] == '.') || (len == 2 && chars[start] == '.' && chars[start
        + 1] == '.');
    proof {
        let name = last_component(path@);
        assert(name == chars@.subrange(start as int, end as int));
        assert(name.len() == len);
        if len == 1 {
            assert(name[0] == chars@[start as int]);
            if dots {
                assert(name =~= current_dir());
            } else {
                assert(name != current_dir());
            }
        }
        if len == 2 {
            assert(name[0] == chars@[start as int]);
            assert(name[1] == chars@[start as int + 1]);
            if dots {
                assert(name =~= parent_dir());
            } else {
                assert(name != parent_dir());
            }
        }
    }
    if len == 0 || dots {
        None
    } else {
        let name = path.substring_char(start, end);
        Some(String::from_str(name))
    }
}

} // verus!
