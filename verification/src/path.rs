//! File-system paths as the engine sees them: absolute, purely lexical.
//!
//! A resolved path is the sequence of its segments below the root. Resolving
//! never touches the file system: a relative input is placed under the working
//! directory, empty and `.` segments are dropped, and `..` removes the
//! segment before it.

use vstd::prelude::*;
use vstd::string::*;
use crate::error::{ErrorKind, PermissionError};

verus! {

/// The segments of a resolved path, outermost first. The root is empty.
pub type PathView = Seq<Seq<char>>;

/// An absolute path with `.` and `..` folded away.
#[derive(Clone, Debug)]
pub struct FsPath {
    pub segments: Vec<String>,
}

/// The texts of a list of strings.
pub open spec fn texts(list: Seq<String>) -> PathView {
    Seq::new(list.len(), |i: int| list[i]@)
}

impl View for FsPath {
    type V = PathView;

    open spec fn view(&self) -> PathView {
        texts(self.segments@)
    }
}

/// Whether a path text starts at the root.
pub open spec fn is_absolute(text: Seq<char>) -> bool {
    text.len() > 0 && text[0] == '/'
}

/// A segment that names an entry: not empty, not `.` or `..`, no separator.
pub open spec fn is_plain_segment(segment: Seq<char>) -> bool {
    &&& segment.len() > 0
    &&& segment != seq!['.']
    &&& segment != seq!['.', '.']
    &&& forall|k: int| 0 <= k < segment.len() ==> segment[k] != '/'
}

/// Whether every segment of a path names an entry.
pub open spec fn is_resolved(path: PathView) -> bool {
    forall|i: int| 0 <= i < path.len() ==> is_plain_segment(#[trigger] path[i])
}

/// One segment applied to the path walked so far.
pub open spec fn step(walked: PathView, segment: Seq<char>) -> PathView {
    if segment.len() == 0 || segment == seq!['.'] {
        walked
    } else if segment == seq!['.', '.'] {
        if walked.len() > 0 {
            walked.drop_last()
        } else {
            walked
        }
    } else {
        walked.push(segment)
    }
}

/// The path reached from `walked` by the rest of `text` from position `at`
/// on, where the segment being read began at `start`.
pub open spec fn walk(text: Seq<char>, at: int, walked: PathView, start: int) -> PathView
    decreases text.len() - at,
{
    if at >= text.len() {
        step(walked, text.subrange(start, text.len() as int))
    } else if text[at] == '/' {
        walk(text, at + 1, step(walked, text.subrange(start, at)), at + 1)
    } else {
        walk(text, at + 1, walked, start)
    }
}

/// The resolved form of `text` seen from the working directory `cwd`.
pub open spec fn resolved(cwd: PathView, text: Seq<char>) -> PathView {
    if is_absolute(text) {
        walk(text, 0, Seq::empty(), 0)
    } else {
        walk(text, 0, cwd, 0)
    }
}

/// Whether `path` is `base` or lies below it: `base` is a prefix of `path`,
/// segment by segment.
pub open spec fn is_under(path: PathView, base: PathView) -> bool {
    base.len() <= path.len() && path.subrange(0, base.len() as int) == base
}

/// The text of a resolved path: a separator before each segment, and a lone
/// separator for the root.
pub open spec fn joined(path: PathView) -> Seq<char>
    decreases path.len(),
{
    if path.len() == 0 {
        Seq::empty()
    } else {
        joined(path.drop_last()) + seq!['/'] + path.last()
    }
}

pub open spec fn rendered(path: PathView) -> Seq<char> {
    if path.len() == 0 {
        seq!['/']
    } else {
        joined(path)
    }
}

/// A step keeps a resolved path resolved.
pub proof fn lemma_step_resolved(walked: PathView, segment: Seq<char>)
    requires
        is_resolved(walked),
        forall|k: int| 0 <= k < segment.len() ==> segment[k] != '/',
    ensures
        is_resolved(step(walked, segment)),
{
    let next = step(walked, segment);
    assert forall|i: int| 0 <= i < next.len() implies is_plain_segment(#[trigger] next[i]) by {
        if i < walked.len() {
            assert(next[i] == walked[i]);
        }
    }
}

/// A walk from a resolved path ends in a resolved path.
pub proof fn lemma_walk_resolved(text: Seq<char>, at: int, walked: PathView, start: int)
    requires
        0 <= start <= at <= text.len(),
        is_resolved(walked),
        forall|k: int| start <= k < at ==> text[k] != '/',
    ensures
        is_resolved(walk(text, at, walked, start)),
    decreases text.len() - at,
{
    if at >= text.len() {
        lemma_step_resolved(walked, text.subrange(start, text.len() as int));
    } else if text[at] == '/' {
        lemma_step_resolved(walked, text.subrange(start, at));
        lemma_walk_resolved(text, at + 1, step(walked, text.subrange(start, at)), at + 1);
    } else {
        lemma_walk_resolved(text, at + 1, walked, start);
    }
}

/// Resolving from a resolved working directory gives a resolved path.
pub proof fn lemma_resolved_is_resolved(cwd: PathView, text: Seq<char>)
    requires
        is_resolved(cwd),
    ensures
        is_resolved(resolved(cwd, text)),
{
    if is_absolute(text) {
        lemma_walk_resolved(text, 0, Seq::empty(), 0);
    } else {
        lemma_walk_resolved(text, 0, cwd, 0);
    }
}

/// The text of a path, read from the left: a separator, the first segment,
/// and the text of the rest.
pub proof fn lemma_joined_first(path: PathView)
    requires
        path.len() > 0,
    ensures
        joined(path) == seq!['/'] + path[0] + joined(path.drop_first()),
    decreases path.len(),
{
    if path.len() == 1 {
        assert(path.drop_last() =~= Seq::<Seq<char>>::empty());
        assert(path.drop_first() =~= Seq::<Seq<char>>::empty());
        assert(joined(path) =~= seq!['/'] + path[0] + joined(path.drop_first()));
    } else {
        let front = path.drop_last();
        let back = path.drop_first();
        lemma_joined_first(front);
        assert(front.drop_first() =~= back.drop_last());
        assert(front[0] == path[0]);
        assert(back.last() == path.last());
        assert(joined(path) =~= seq!['/'] + path[0] + joined(back));
    }
}

/// A walk passes over characters that are no separators without a step.
pub proof fn lemma_walk_segment(text: Seq<char>, at: int, walked: PathView, start: int, end: int)
    requires
        0 <= start <= at <= end <= text.len(),
        forall|k: int| at <= k < end ==> text[k] != '/',
    ensures
        walk(text, at, walked, start) == walk(text, end, walked, start),
    decreases end - at,
{
    if at < end {
        lemma_walk_segment(text, at + 1, walked, start, end);
    }
}

/// A walk over the text of a resolved path, begun at the separator before
/// its segment `i` with the segments before it already walked, ends in
/// that path.
pub proof fn lemma_walk_joined(text: Seq<char>, at: int, path: PathView, i: int)
    requires
        is_resolved(path),
        0 <= i <= path.len(),
        0 <= at <= text.len(),
        text.subrange(at, text.len() as int) == joined(path.subrange(i, path.len() as int)),
    ensures
        walk(text, at, path.subrange(0, i), at) == path,
    decreases path.len() - i,
{
    let n = path.len() as int;
    let len = text.len() as int;
    let walked = path.subrange(0, i);
    let rest = path.subrange(i, n);
    if i == n {
        assert(joined(rest) =~= Seq::<char>::empty());
        assert(at == len);
        assert(text.subrange(at, len) =~= Seq::<char>::empty());
        assert(walked =~= path);
    } else {
        lemma_joined_first(rest);
        let seg = path[i];
        assert(rest[0] == seg);
        assert(is_plain_segment(seg));
        let tail = joined(rest.drop_first());
        assert(rest.drop_first() =~= path.subrange(i + 1, n));
        let here = text.subrange(at, len);
        assert(here == seq!['/'] + seg + tail);
        assert(here.len() == 1 + seg.len() + tail.len());
        assert(text[at] == here[0]);
        assert(here[0] == '/');
        let end = at + 1 + seg.len();
        assert forall|k: int| at + 1 <= k < end implies text[k] != '/' by {
            assert(text[k] == here[k - at]);
            assert(here[k - at] == seg[k - at - 1]);
        }
        assert(text.subrange(at, at) =~= Seq::<char>::empty());
        assert(step(walked, text.subrange(at, at)) == walked);
        lemma_walk_segment(text, at + 1, walked, at + 1, end);
        assert forall|k: int| 0 <= k < seg.len() implies text.subrange(at + 1, end)[k]
            == seg[k] by {
            assert(text[at + 1 + k] == here[k + 1]);
        }
        assert(text.subrange(at + 1, end) =~= seg);
        assert(walked.push(seg) =~= path.subrange(0, i + 1));
        assert(step(walked, seg) == walked.push(seg));
        assert forall|k: int| 0 <= k < tail.len() implies text.subrange(end, len)[k]
            == tail[k] by {
            assert(text[end + k] == here[k + 1 + seg.len()]);
        }
        assert(text.subrange(end, len) =~= tail);
        lemma_walk_joined(text, end, path, i + 1);
        if end < len {
            assert(tail.len() > 0);
            assert(i + 1 < n) by {
                if i + 1 == n {
                    assert(joined(path.subrange(i + 1, n)) =~= Seq::<char>::empty());
                }
            }
            lemma_joined_first(path.subrange(i + 1, n));
            assert(text[end] == tail[0]);
            assert(text[end] == '/');
            assert(text.subrange(end, end) =~= Seq::<char>::empty());
        } else {
            assert(i + 1 == n) by {
                if i + 1 < n {
                    lemma_joined_first(path.subrange(i + 1, n));
                }
            }
            assert(text.subrange(end, len) =~= Seq::<char>::empty());
            assert(text.subrange(at + 1, len) =~= seg);
            assert(path.subrange(0, i + 1) =~= path);
        }
    }
}

/// Resolving the text of a resolved path gives the path back, whatever the
/// working directory.
pub proof fn lemma_resolved_of_rendered(cwd: PathView, path: PathView)
    requires
        is_resolved(path),
    ensures
        is_absolute(rendered(path)),
        resolved(cwd, rendered(path)) == path,
{
    let text = rendered(path);
    if path.len() == 0 {
        assert(text.subrange(0, 0) =~= Seq::<char>::empty());
        assert(text.subrange(1, 1) =~= Seq::<char>::empty());
        assert(walk(text, 1, Seq::<Seq<char>>::empty(), 1) == Seq::<Seq<char>>::empty());
        assert(path =~= Seq::<Seq<char>>::empty());
    } else {
        lemma_joined_first(path);
        assert(text[0] == '/');
        assert(text.subrange(0, text.len() as int) =~= text);
        assert(path.subrange(0, path.len() as int) =~= path);
        assert(path.subrange(0, 0) =~= Seq::<Seq<char>>::empty());
        lemma_walk_joined(text, 0, path, 0);
    }
}

fn apply_segment(walked: &mut Vec<String>, segment: &str)
    ensures
        texts(final(walked)@) == step(texts(old(walked)@), segment@),
{
    let len = segment.unicode_len();
    let dots = if len == 1 {
        segment.get_char(0) == '.'
    } else if len == 2 {
        segment.get_char(0) == '.' && segment.get_char(1) == '.'
    } else {
        false
    };
    proof {
        if len == 1 {
            assert(dots <==> segment@ =~= seq!['.']);
        }
        if len == 2 {
            assert(dots <==> segment@ =~= seq!['.', '.']);
        }
        assert(seq!['.'].len() == 1);
        assert(seq!['.', '.'].len() == 2);
    }
    if len == 0 || (len == 1 && dots) {
    } else if len == 2 && dots {
        if walked.len() > 0 {
            walked.pop();
            assert(texts(walked@) =~= texts(old(walked)@).drop_last());
        }
    } else {
        walked.push(String::from_str(segment));
        assert(texts(walked@) =~= texts(old(walked)@).push(segment@));
    }
}

impl FsPath {
    /// The root directory.
    pub fn root() -> (path: FsPath)
        ensures
            path@ == Seq::<Seq<char>>::empty(),
    {
        let path = FsPath { segments: Vec::new() };
        assert(path@ =~= Seq::<Seq<char>>::empty());
        path
    }

    /// Whether `self` is `base` or lies below it.
    pub fn starts_with(&self, base: &FsPath) -> (under: bool)
        ensures
            under == is_under(self@, base@),
    {
        if base.segments.len() > self.segments.len() {
            return false;
        }
        let n = base.segments.len();
        let mut i: usize = 0;
        while i < n
            invariant
                n == base.segments@.len(),
                n <= self.segments@.len(),
                i <= n,
                forall|k: int| 0 <= k < i ==> self.segments@[k]@ == base.segments@[k]@,
            decreases n - i,
        {
            if self.segments[i] != base.segments[i] {
                assert(self@.subrange(0, n as int)[i as int] == self.segments@[i as int]@);
                assert(base@[i as int] == base.segments@[i as int]@);
                return false;
            }
            i += 1;
        }
        assert(self@.subrange(0, n as int) =~= base@);
        true
    }

    /// The text of the path.
    pub fn render(&self) -> (text: String)
        ensures
            text@ == rendered(self@),
    {
        if self.segments.len() == 0 {
            let text = String::from_str("/");
            proof {
                reveal_strlit("/");
                assert(text@ =~= seq!['/']);
            }
            return text;
        }
        let mut text = String::new();
        let n = self.segments.len();
        let mut i: usize = 0;
        while i < n
            invariant
                n == self.segments@.len(),
                i <= n,
                text@ == joined(self@.subrange(0, i as int)),
            decreases n - i,
        {
            text.append("/");
            text.append(self.segments[i].as_str());
            proof {
                reveal_strlit("/");
                let upto = self@.subrange(0, i + 1);
                assert(upto.drop_last() =~= self@.subrange(0, i as int));
                assert(upto.last() == self.segments@[i as int]@);
                assert("/"@ =~= seq!['/']);
            }
            i += 1;
        }
        assert(self@.subrange(0, n as int) =~= self@);
        text
    }
}

/// Resolve `path` lexically, seen from the working directory `cwd`.
pub fn resolve_from_cwd(path: &str, cwd: &FsPath) -> (res: FsPath)
    ensures
        res@ == resolved(cwd@, path@),
        is_resolved(cwd@) ==> is_resolved(res@),
{
    let n = path.unicode_len();
    let mut walked: Vec<String> = Vec::new();
    if n == 0 || path.get_char(0) != '/' {
        let m = cwd.segments.len();
        let mut j: usize = 0;
        while j < m
            invariant
                m == cwd.segments@.len(),
                j <= m,
                walked@.len() == j,
                forall|k: int| 0 <= k < j ==> walked@[k]@ == cwd.segments@[k]@,
            decreases m - j,
        {
            walked.push(cwd.segments[j].clone());
            j += 1;
        }
        assert(texts(walked@) =~= cwd@);
    } else {
        assert(texts(walked@) =~= Seq::<Seq<char>>::empty());
    }
    let mut start: usize = 0;
    let mut i: usize = 0;
    while i < n
        invariant
            n == path@.len(),
            start <= i <= n,
            resolved(cwd@, path@) == walk(path@, i as int, texts(walked@), start as int),
        decreases n - i,
    {
        if path.get_char(i) == '/' {
            let segment = path.substring_char(start, i);
            apply_segment(&mut walked, segment);
            start = i + 1;
        }
        i += 1;
    }
    let segment = path.substring_char(start, n);
    apply_segment(&mut walked, segment);
    proof {
        if is_resolved(cwd@) {
            lemma_resolved_is_resolved(cwd@, path@);
        }
    }
    FsPath { segments: walked }
}

/// Read a working directory: an absolute path text, resolved.
pub fn absolute_path(text: &str) -> (res: Result<FsPath, PermissionError>)
    ensures
        res.is_ok() <==> is_absolute(text@),
        res matches Ok(path) ==> path@ == resolved(Seq::empty(), text@) && is_resolved(path@),
        res matches Err(e) ==> e.kind == ErrorKind::InvalidArgument && e.message@
            == "The working directory is not an absolute path"@,
{
    if text.unicode_len() == 0 || text.get_char(0) != '/' {
        return Err(
            PermissionError {
                kind: ErrorKind::InvalidArgument,
                message: String::from_str("The working directory is not an absolute path"),
            },
        );
    }
    let base = FsPath::root();
    Ok(resolve_from_cwd(text, &base))
}

} // verus!
