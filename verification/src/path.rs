//! File paths, held as the texts that spell them and taken apart as `std::path` does on Unix.

use vstd::prelude::*;

use crate::text::{join_three, join_two, same_text, text_after};

verus! {

/// A file path, as it is spelled.
#[derive(Debug, Clone)]
pub struct FilePath {
    pub raw: String,
}

/// What a file path says.
#[verifier::ext_equal]
pub struct PathView {
    pub text: Seq<char>,
}

/// The texts that a vector of strings holds.
pub open spec fn texts(parts: Seq<String>) -> Seq<Seq<char>> {
    Seq::new(parts.len(), |i: int| parts[i]@)
}

impl View for FilePath {
    type V = PathView;

    open spec fn view(&self) -> PathView {
        PathView { text: self.raw@ }
    }
}

/// The length of the root that a path starts at: one, where it starts with a slash.
pub open spec fn root_len(text: Seq<char>) -> int {
    if text.len() > 0 && text[0] == '/' {
        1
    } else {
        0
    }
}

/// Where the component that ends at `end` starts: behind the last slash before, or at `low`.
pub open spec fn part_from(text: Seq<char>, end: int, low: int) -> int
    decreases end,
{
    if end <= low || end <= 0 {
        low
    } else if text[end - 1] == '/' {
        end
    } else {
        part_from(text, end - 1, low)
    }
}

/// Whether what stands between two positions says nothing: it is empty, or a dot that is not the
/// first component of a relative path.
pub open spec fn is_idle(text: Seq<char>, start: int, end: int) -> bool {
    start == end || (end - start == 1 && text[start] == '.' && start > 0)
}

/// Where the last component that says something ends, of the path up to `end`; the length of the
/// root, where there is none.
pub open spec fn kept_end(text: Seq<char>, end: int) -> int
    decreases end,
{
    let low = root_len(text);
    let start = part_from(text, end, low);
    if end <= low {
        low
    } else if start <= end && is_idle(text, start, end) {
        if low < start {
            kept_end(text, start - 1)
        } else {
            low
        }
    } else {
        end
    }
}

/// The position of the last dot of a file name, or -1.
pub open spec fn last_dot(name: Seq<char>) -> int
    decreases name.len(),
{
    if name.len() == 0 {
        -1
    } else if name.last() == '.' {
        name.len() - 1
    } else {
        last_dot(name.drop_last())
    }
}

/// A file name without its extension: what stands before the last dot, where that dot is
/// not the first character.
pub open spec fn stem(name: Seq<char>) -> Seq<char> {
    let dot = last_dot(name);
    if dot > 0 {
        name.subrange(0, dot)
    } else {
        name
    }
}

/// The extension of a file name: what stands behind the last dot, where that dot is not the
/// first character.
pub open spec fn extension_of(name: Seq<char>) -> Option<Seq<char>> {
    let dot = last_dot(name);
    if dot > 0 {
        Some(name.subrange(dot + 1, name.len() as int))
    } else {
        None
    }
}

impl PathView {
    /// The path without components that is not rooted.
    pub open spec fn empty() -> PathView {
        PathView { text: Seq::empty() }
    }

    /// The text that the components below a path are put behind: a slash comes between, unless
    /// there is one or nothing to part.
    pub open spec fn opened(self) -> Seq<char> {
        if self.text.len() == 0 || self.text.last() == '/' {
            self.text
        } else {
            self.text + "/"@
        }
    }

    /// The path that `text` names, seen from `self`.
    pub open spec fn join(self, text: Seq<char>) -> PathView {
        if text.len() > 0 && text[0] == '/' {
            PathView { text }
        } else {
            PathView { text: self.opened() + text }
        }
    }

    /// Where the last component ends.
    pub open spec fn end(self) -> int {
        kept_end(self.text, self.text.len() as int)
    }

    /// Where the last component starts.
    pub open spec fn start(self) -> int {
        part_from(self.text, self.end(), root_len(self.text))
    }

    /// Whether there is a component.
    pub open spec fn has_part(self) -> bool {
        self.end() > root_len(self.text)
    }

    /// The last component.
    pub open spec fn last_part(self) -> Seq<char> {
        self.text.subrange(self.start(), self.end())
    }

    /// The path without what says nothing at its end.
    pub open spec fn trimmed(self) -> PathView {
        PathView { text: self.text.subrange(0, self.end()) }
    }

    /// The directory that holds the last component, without what says nothing at its end.
    pub open spec fn parent(self) -> Option<PathView> {
        if self.has_part() {
            let low = root_len(self.text);
            let end = if self.start() > low {
                self.start() - 1
            } else {
                low
            };
            Some(PathView { text: self.text.subrange(0, kept_end(self.text, end)) })
        } else {
            None
        }
    }

    /// The last component, where it names a file.
    pub open spec fn file_name(self) -> Option<Seq<char>> {
        if !self.has_part() || self.last_part() == ".."@ || self.last_part() == "."@ {
            None
        } else {
            Some(self.last_part())
        }
    }

    /// The extension of the file name.
    pub open spec fn extension(self) -> Option<Seq<char>> {
        match self.file_name() {
            Some(name) => extension_of(name),
            None => None,
        }
    }

    /// The file name without its extension.
    pub open spec fn file_stem(self) -> Option<Seq<char>> {
        match self.file_name() {
            Some(name) => Some(stem(name)),
            None => None,
        }
    }

    /// The path whose file name has `extension` in place of its own. Nothing follows the name.
    pub open spec fn with_extension(self, extension: Seq<char>) -> PathView {
        match self.file_name() {
            None => self,
            Some(name) => PathView {
                text: self.text.subrange(0, self.start() + stem(name).len()) + "."@ + extension,
            },
        }
    }
}

/// The component that ends at `end` starts within the path, and holds no slash.
proof fn lemma_part_from(text: Seq<char>, end: int, low: int)
    requires
        0 <= low <= end <= text.len(),
    ensures
        low <= part_from(text, end, low) <= end,
        forall|i: int| part_from(text, end, low) <= i < end ==> text[i] != '/',
        part_from(text, end, low) > low ==> text[part_from(text, end, low) - 1] == '/',
    decreases end,
{
    if end > low && text[end - 1] != '/' {
        lemma_part_from(text, end - 1, low);
    }
}

/// The last component that says something ends within the path.
proof fn lemma_kept_end(text: Seq<char>, end: int)
    requires
        0 <= end <= text.len(),
    ensures
        root_len(text) <= kept_end(text, end) <= text.len(),
        kept_end(text, end) <= end || kept_end(text, end) == root_len(text),
    decreases end,
{
    let low = root_len(text);
    if end > low {
        lemma_part_from(text, end, low);
        let start = part_from(text, end, low);
        if is_idle(text, start, end) && low < start {
            lemma_kept_end(text, start - 1);
        }
    }
}

/// Where the component that ends at `end` starts.
fn find_part(text: &str, end: usize, low: usize) -> (r: usize)
    requires
        low <= end <= text@.len(),
    ensures
        r == part_from(text@, end as int, low as int),
        low <= r <= end,
{
    let mut at: usize = end;
    while at > low
        invariant
            low <= at <= end <= text@.len(),
            part_from(text@, end as int, low as int) == part_from(text@, at as int, low as int),
        decreases at,
    {
        if text.get_char(at - 1) == '/' {
            return at;
        }
        at -= 1;
    }
    low
}

/// The length of the root that a path starts at.
fn find_root(text: &str) -> (r: usize)
    ensures
        r == root_len(text@),
        r <= text@.len(),
{
    if text.unicode_len() > 0 && text.get_char(0) == '/' {
        1
    } else {
        0
    }
}

/// Where the last component that says something ends.
fn find_end(text: &str, end: usize) -> (r: usize)
    requires
        end <= text@.len(),
    ensures
        r == kept_end(text@, end as int),
        root_len(text@) <= r <= text@.len(),
{
    let low: usize = find_root(text);
    let mut at: usize = end;
    while at > low
        invariant
            at <= end <= text@.len(),
            low == root_len(text@),
            low <= text@.len(),
            kept_end(text@, end as int) == kept_end(text@, at as int),
        decreases at,
    {
        let start: usize = find_part(text, at, low);
        if start == at || (at - start == 1 && start > 0 && text.get_char(start) == '.') {
            if low < start {
                at = start - 1;
            } else {
                return low;
            }
        } else {
            return at;
        }
    }
    low
}

/// The position of the last dot of a file name, counted from one, or zero.
fn find_last_dot(name: &str) -> (r: usize)
    ensures
        r == last_dot(name@) + 1,
        r <= name@.len(),
{
    let mut n: usize = name.unicode_len();
    assert(name@.subrange(0, n as int) =~= name@);
    while n > 0
        invariant
            n <= name@.len(),
            last_dot(name@) == last_dot(name@.subrange(0, n as int)),
        decreases n,
    {
        assert(name@.subrange(0, n as int).drop_last() =~= name@.subrange(0, n - 1));
        if name.get_char(n - 1) == '.' {
            return n;
        }
        n -= 1;
    }
    0
}

impl FilePath {
    /// The path without components.
    pub fn new() -> (r: FilePath)
        ensures
            r@ == PathView::empty(),
    {
        FilePath { raw: String::new() }
    }

    /// The path that `text` names.
    pub fn from_text(text: &str) -> (r: FilePath)
        ensures
            r@ == (PathView { text: text@ }),
    {
        FilePath { raw: text.to_owned() }
    }

    /// The same path.
    pub fn copy(&self) -> (r: FilePath)
        ensures
            r@ == self@,
    {
        FilePath { raw: self.raw.clone() }
    }

    /// The path that `text` names, seen from this one: `text` itself where it starts at the
    /// root, else what it names below this path.
    pub fn join(&self, text: &str) -> (r: FilePath)
        ensures
            r@ == self@.join(text@),
    {
        let base: &str = self.raw.as_str();
        let n: usize = base.unicode_len();
        if text.unicode_len() > 0 && text.get_char(0) == '/' {
            FilePath { raw: text.to_owned() }
        } else if n == 0 || base.get_char(n - 1) == '/' {
            FilePath { raw: join_two(base, text) }
        } else {
            FilePath { raw: join_three(base, "/", text) }
        }
    }

    /// The directory that holds the last component.
    pub fn parent(&self) -> (r: Option<FilePath>)
        ensures
            match r {
                Some(p) => self@.parent() == Some(p@),
                None => self@.parent() is None,
            },
    {
        let text: &str = self.raw.as_str();
        let low: usize = find_root(text);
        let end: usize = find_end(text, text.unicode_len());
        if end <= low {
            return None;
        }
        let start: usize = find_part(text, end, low);
        let above: usize = if start > low {
            start - 1
        } else {
            low
        };
        Some(FilePath { raw: text.substring_char(0, find_end(text, above)).to_owned() })
    }

    /// The last component, where it names a file.
    pub fn file_name(&self) -> (r: Option<String>)
        ensures
            match r {
                Some(name) => self@.file_name() == Some(name@),
                None => self@.file_name() is None,
            },
    {
        let text: &str = self.raw.as_str();
        let low: usize = find_root(text);
        let end: usize = find_end(text, text.unicode_len());
        if end <= low {
            return None;
        }
        let name: &str = text.substring_char(find_part(text, end, low), end);
        if same_text(name, "..") || same_text(name, ".") {
            None
        } else {
            Some(name.to_owned())
        }
    }

    /// The extension of the file name.
    pub fn extension(&self) -> (r: Option<String>)
        ensures
            match r {
                Some(e) => self@.extension() == Some(e@),
                None => self@.extension() is None,
            },
    {
        match self.file_name() {
            None => None,
            Some(name) => {
                let dot: usize = find_last_dot(name.as_str());
                if dot > 1 {
                    Some(text_after(name.as_str(), dot).to_owned())
                } else {
                    None
                }
            },
        }
    }

    /// The file name without its extension.
    pub fn file_stem(&self) -> (r: Option<String>)
        ensures
            match r {
                Some(s) => self@.file_stem() == Some(s@),
                None => self@.file_stem() is None,
            },
    {
        match self.file_name() {
            None => None,
            Some(name) => Some(stem_text(name.as_str())),
        }
    }

    /// Puts an extension in the place of the file name's own.
    pub fn set_extension(&mut self, extension: &str)
        requires
            extension@.len() > 0,
            !extension@.contains('/'),
        ensures
            final(self)@ == old(self)@.with_extension(extension@),
    {
        if let Some(stem) = self.file_stem() {
            let text: &str = self.raw.as_str();
            let end: usize = find_end(text, text.unicode_len());
            let start: usize = find_part(text, end, find_root(text));
            let before: &str = text.substring_char(0, start);
            let ghost kept = self@.text.subrange(0, start as int);
            proof {
                lemma_stem(self@.last_part());
                assert(self@.text.subrange(0, start + stem@.len()) =~= kept + stem@);
            }
            self.raw = join_two(join_three(before, stem.as_str(), ".").as_str(), extension);
        }
    }

    /// Whether two paths are spelled the same.
    pub fn same(&self, other: &FilePath) -> (r: bool)
        ensures
            r == (self@ == other@),
    {
        same_text(self.raw.as_str(), other.raw.as_str())
    }

    /// The path as text, as it is spelled.
    pub fn text(&self) -> (r: String)
        ensures
            r@ == self@.text,
    {
        self.raw.clone()
    }
}

/// A file name without its extension.
fn stem_text(name: &str) -> (r: String)
    ensures
        r@ == stem(name@),
{
    let dot: usize = find_last_dot(name);
    if dot > 1 {
        name.substring_char(0, dot - 1).to_owned()
    } else {
        name.to_owned()
    }
}

/// The last dot stands inside the name.
proof fn lemma_last_dot_bound(name: Seq<char>)
    ensures
        -1 <= last_dot(name) < name.len(),
    decreases name.len(),
{
    if name.len() > 0 && name.last() != '.' {
        lemma_last_dot_bound(name.drop_last());
    }
}

/// A file name begins with its stem.
proof fn lemma_stem(name: Seq<char>)
    ensures
        stem(name).len() <= name.len(),
        stem(name) == name.subrange(0, stem(name).len() as int),
{
    lemma_last_dot_bound(name);
    assert(name.subrange(0, name.len() as int) =~= name);
}

/// The start of a component depends on what stands before its end alone.
proof fn lemma_part_from_prefix(a: Seq<char>, b: Seq<char>, end: int, low: int)
    requires
        0 <= low,
        end <= a.len(),
        end <= b.len(),
        forall|i: int| 0 <= i < end ==> a[i] == b[i],
    ensures
        part_from(a, end, low) == part_from(b, end, low),
    decreases end,
{
    if end > low {
        assert(a[end - 1] == b[end - 1]);
        lemma_part_from_prefix(a, b, end - 1, low);
    }
}

/// Where the last component ends depends on what stands before alone.
proof fn lemma_kept_end_prefix(a: Seq<char>, b: Seq<char>, end: int)
    requires
        0 <= end <= a.len(),
        end <= b.len(),
        root_len(a) == root_len(b),
        forall|i: int| 0 <= i < end ==> a[i] == b[i],
    ensures
        kept_end(a, end) == kept_end(b, end),
    decreases end,
{
    let low = root_len(a);
    if end > low {
        lemma_part_from_prefix(a, b, end, low);
        lemma_part_from(a, end, low);
        let start = part_from(a, end, low);
        if low < start && is_idle(a, start, end) {
            lemma_kept_end_prefix(a, b, start - 1);
        }
    }
}

/// Whether a text can stand as the last component of a path.
pub open spec fn is_part(name: Seq<char>) -> bool {
    &&& name.len() > 0
    &&& name != "."@
    &&& forall|i: int| 0 <= i < name.len() ==> name[i] != '/'
}

/// What stands behind the last slash of a path is its last component.
pub proof fn lemma_last_part(before: Seq<char>, name: Seq<char>)
    requires
        before.len() == 0 || before.last() == '/',
        is_part(name),
    ensures
        ({
            let path = PathView { text: before + name };
            &&& path.has_part()
            &&& path.start() == before.len()
            &&& path.end() == before.len() + name.len()
            &&& path.last_part() == name
        }),
{
    reveal_strlit(".");
    let text = before + name;
    let low = root_len(text);
    let end = text.len() as int;
    assert(forall|i: int| before.len() <= i < end ==> text[i] == name[i - before.len()]);
    assert(text[before.len() as int] != '/');
    assert(low <= before.len());
    lemma_part_from(text, end, low);
    let start = part_from(text, end, low);
    if start > before.len() {
        assert(text[start - 1] == name[start - 1 - before.len()]);
        assert(false);
    }
    if start < before.len() {
        assert(text[before.len() - 1] == '/');
        assert(false);
    }
    if end - start == 1 && text[start] == '.' {
        assert(name =~= "."@);
    }
    assert(text.subrange(start, end) =~= name);
}

/// A component that is put below a directory is the last one there, and the directory is the one
/// that holds it.
pub proof fn law_file_below(dir: PathView, name: Seq<char>)
    requires
        is_part(name),
    ensures
        dir.join(name).last_part() == name,
        dir.join(name).parent() == Some(dir.trimmed()),
        name != ".."@ ==> dir.join(name).file_name() == Some(name),
{
    reveal_strlit("/");
    let before = dir.opened();
    let path = dir.join(name);
    assert(name[0] != '/');
    if before.len() > 0 && dir.text.len() > 0 && dir.text.last() != '/' {
        assert(before.last() == '/');
    }
    lemma_last_part(before, name);
    let low = root_len(dir.text);
    assert(root_len(path.text) == low) by {
        if dir.text.len() > 0 {
            assert(path.text[0] == dir.text[0]);
        } else {
            assert(path.text =~= name);
        }
    }
    let end = dir.text.len() as int;
    assert(forall|i: int| 0 <= i < end ==> path.text[i] == dir.text[i]);
    lemma_kept_end(dir.text, end);
    lemma_kept_end_prefix(path.text, dir.text, end);
    if end > low && dir.text.last() == '/' {
        assert(part_from(dir.text, end, low) == end);
        lemma_kept_end_prefix(path.text, dir.text, end - 1);
        assert(kept_end(dir.text, end) == kept_end(dir.text, end - 1));
    }
    assert(path.parent()->0.text =~= dir.trimmed().text);
}

/// What says nothing at the end of a path is taken away once.
pub proof fn law_trimmed(path: PathView)
    ensures
        path.trimmed().trimmed() == path.trimmed(),
        path.parent() matches Some(parent) ==> parent.trimmed() == parent,
{
    lemma_trimmed(path.text, path.text.len() as int);
    if path.has_part() {
        let low = root_len(path.text);
        lemma_kept_end(path.text, path.text.len() as int);
        lemma_part_from(path.text, path.end(), low);
        let end = if path.start() > low {
            path.start() - 1
        } else {
            low
        };
        lemma_trimmed(path.text, end);
    }
}

/// Where a path is cut behind a component that says something, that one is the last.
proof fn lemma_trimmed(text: Seq<char>, end: int)
    requires
        0 <= end <= text.len(),
    ensures
        ({
            let kept = PathView { text: text.subrange(0, kept_end(text, end)) };
            kept.trimmed() == kept
        }),
    decreases end,
{
    lemma_kept_end(text, end);
    let low = root_len(text);
    let k = kept_end(text, end);
    let kept = text.subrange(0, k);
    assert(root_len(kept) == low);
    if end <= low {
        assert(kept.subrange(0, k) =~= kept);
    } else {
        lemma_part_from(text, end, low);
        let start = part_from(text, end, low);
        if is_idle(text, start, end) {
            if low < start {
                lemma_trimmed(text, start - 1);
            } else {
                assert(kept.subrange(0, k) =~= kept);
            }
        } else {
            lemma_kept_end_prefix(kept, text, end);
            assert(kept.subrange(0, k) =~= kept);
        }
    }
}

/// A name below a directory stands behind it with one slash between, and as it is where there is
/// nothing before it. A name that starts at the root stands for itself.
pub proof fn law_join(dir: PathView, name: Seq<char>)
    ensures
        name.len() > 0 && name[0] == '/' ==> dir.join(name).text == name,
        name.len() > 0 && name[0] != '/' && dir.text.len() == 0 ==> dir.join(name).text == name,
        name.len() > 0 && name[0] != '/' && dir.text.len() > 0 && dir.text.last() == '/' ==> dir.join(
            name,
        ).text == dir.text + name,
        name.len() > 0 && name[0] != '/' && dir.text.len() > 0 && dir.text.last() != '/' ==> dir.join(
            name,
        ).text == dir.text + seq!['/'] + name,
{
    reveal_strlit("/");
    assert("/"@ =~= seq!['/']);
    assert(dir.text.len() == 0 ==> dir.text + name =~= name);
}

/// A file name with an extension is its stem, a dot and the extension, which holds no dot; one
/// without an extension is its stem.
pub proof fn law_extension(path: PathView)
    ensures
        path.file_name() is None <==> path.file_stem() is None,
        path.file_name() is None ==> path.extension() is None,
        path.file_name() matches Some(name) ==> {
            &&& path.file_stem() matches Some(stem)
            &&& path.extension() is None ==> stem == name
            &&& path.extension() matches Some(extension) ==> name == stem + seq!['.'] + extension
                && stem.len() > 0 && !extension.contains('.')
        },
{
    if let Some(name) = path.file_name() {
        lemma_last_dot_found(name);
        let dot = last_dot(name);
        if dot > 0 {
            assert(name =~= name.subrange(0, dot) + seq!['.'] + name.subrange(
                dot + 1,
                name.len() as int,
            ));
        }
    }
}

/// The last dot is one, and none stands behind it.
proof fn lemma_last_dot_found(name: Seq<char>)
    ensures
        -1 <= last_dot(name) < name.len(),
        last_dot(name) >= 0 ==> name[last_dot(name)] == '.',
        !name.subrange(last_dot(name) + 1, name.len() as int).contains('.'),
    decreases name.len(),
{
    if name.len() > 0 && name.last() != '.' {
        let rest = name.drop_last();
        lemma_last_dot_found(rest);
        let dot = last_dot(rest);
        let tail = name.subrange(dot + 1, name.len() as int);
        assert(tail =~= rest.subrange(dot + 1, rest.len() as int).push(name.last()));
        if tail.contains('.') {
            let i = tail.index_of('.');
            assert(rest.subrange(dot + 1, rest.len() as int)[i] == '.');
        }
    }
}

/// A file with another extension stands where it stood: what comes before its name stays, and behind the
/// stem of the name come a dot and the extension. A path that names no file stays as it is.
pub proof fn law_with_extension(path: PathView, extension: Seq<char>)
    ensures
        path.file_name() is None ==> path.with_extension(extension) == path,
        path.file_name() is Some ==> path.with_extension(extension).text == path.text.subrange(
            0,
            path.start(),
        ) + path.file_stem()->0 + seq!['.'] + extension,
{
    reveal_strlit(".");
    assert("."@ =~= seq!['.']);
    if let Some(name) = path.file_name() {
        let low = root_len(path.text);
        lemma_kept_end(path.text, path.text.len() as int);
        lemma_part_from(path.text, path.end(), low);
        lemma_last_dot_found(name);
        let kept = path.start() + stem(name).len();
        assert(path.text.subrange(0, kept) =~= path.text.subrange(0, path.start()) + stem(name));
    }
}

} // verus!
