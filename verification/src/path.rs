//! Paths as plain sequences of components.
//!
//! A path is an ordered sequence of [`Component`]s: a root marker, the
//! current- and parent-directory markers, opaque platform prefixes, and
//! plain names.  All resolution logic in this crate works on this
//! representation; [`VfsPath::parse`] builds it from the usual
//! slash-separated notation and [`VfsPath::render`] writes it back.

use vstd::prelude::*;

verus! {

/// One element of a path.
#[derive(Debug)]
pub enum Component {
    /// The root marker, written `/`.
    RootDir,
    /// The current-directory marker, written `.`.
    CurDir,
    /// The parent-directory marker, written `..`.
    ParentDir,
    /// A platform-specific prefix (such as a drive letter), carried through
    /// resolution unchanged and never interpreted.
    Prefix(String),
    /// A plain name.
    Normal(String),
}

/// The ghost image of a [`Component`]: names become character sequences.
pub enum CompView {
    Root,
    Cur,
    Parent,
    Prefix(Seq<char>),
    Name(Seq<char>),
}

impl View for Component {
    type V = CompView;

    open spec fn view(&self) -> CompView {
        match self {
            Component::RootDir => CompView::Root,
            Component::CurDir => CompView::Cur,
            Component::ParentDir => CompView::Parent,
            Component::Prefix(s) => CompView::Prefix(s@),
            Component::Normal(s) => CompView::Name(s@),
        }
    }
}

impl Clone for Component {
    fn clone(&self) -> (r: Self)
        ensures
            r == *self,
    {
        match self {
            Component::RootDir => Component::RootDir,
            Component::CurDir => Component::CurDir,
            Component::ParentDir => Component::ParentDir,
            Component::Prefix(s) => Component::Prefix(s.clone()),
            Component::Normal(s) => Component::Normal(s.clone()),
        }
    }
}

/// A path: an ordered sequence of components.  Its view is the sequence of
/// the components' views.
#[derive(Debug)]
pub struct VfsPath {
    components: Vec<Component>,
}

impl View for VfsPath {
    type V = Seq<CompView>;

    closed spec fn view(&self) -> Seq<CompView> {
        self.components@.map_values(|c: Component| c@)
    }
}

impl Clone for VfsPath {
    fn clone(&self) -> (r: Self)
        ensures
            r@ == self@,
    {
        let mut components: Vec<Component> = Vec::new();
        let mut i: usize = 0;
        while i < self.components.len()
            invariant
                i <= self.components.len(),
                components@ == self.components@.take(i as int),
            decreases self.components.len() - i,
        {
            components.push(self.components[i].clone());
            proof {
                assert(components@ =~= self.components@.take(i + 1 as int));
            }
            i = i + 1;
        }
        proof {
            assert(self.components@.take(self.components@.len() as int) =~= self.components@);
        }
        let r = VfsPath { components };
        proof {
            assert(r@ =~= self@);
        }
        r
    }
}

impl VfsPath {
    /// The empty path, with no components at all.
    pub fn empty() -> (r: Self)
        ensures
            r@ == Seq::<CompView>::empty(),
    {
        let r = VfsPath { components: Vec::new() };
        proof {
            assert(r@ =~= Seq::<CompView>::empty());
        }
        r
    }

    /// The path that is just the root marker, written `/`.
    pub fn root() -> (r: Self)
        ensures
            r@ =~= seq![CompView::Root],
    {
        let mut components: Vec<Component> = Vec::new();
        components.push(Component::RootDir);
        let r = VfsPath { components };
        proof {
            assert(r@ =~= seq![CompView::Root]);
        }
        r
    }

    /// Number of components.
    pub fn len(&self) -> (n: usize)
        ensures
            n == self@.len(),
    {
        self.components.len()
    }

    /// The component at position `i`.
    pub fn component(&self, i: usize) -> (c: &Component)
        requires
            i < self@.len(),
        ensures
            c@ == self@[i as int],
    {
        &self.components[i]
    }

    /// Append one component at the end.
    pub fn push(&mut self, c: Component)
        ensures
            final(self)@ == old(self)@.push(c@),
    {
        self.components.push(c);
        proof {
            assert(self@ =~= old(self)@.push(c@));
        }
    }
}

/// Classification of one slash-separated segment of a path written as text.
/// An empty segment (from repeated or trailing slashes) contributes nothing.
pub open spec fn classify_segment(seg: Seq<char>) -> Seq<CompView> {
    if seg.len() == 0 {
        Seq::empty()
    } else if seg == seq!['.'] {
        seq![CompView::Cur]
    } else if seg == seq!['.', '.'] {
        seq![CompView::Parent]
    } else {
        seq![CompView::Name(seg)]
    }
}

/// Scanning the characters `cs` left to right: `cur` is the segment read so
/// far since the last slash, `acc` the components already produced.
pub open spec fn scan_segments(cs: Seq<char>, cur: Seq<char>, acc: Seq<CompView>) -> Seq<CompView>
    decreases cs.len(),
{
    if cs.len() == 0 {
        acc + classify_segment(cur)
    } else if cs[0] == '/' {
        scan_segments(cs.skip(1), Seq::empty(), acc + classify_segment(cur))
    } else {
        scan_segments(cs.skip(1), cur.push(cs[0]), acc)
    }
}

/// The components denoted by a path written as text: a leading slash is the
/// root marker, the rest is split at slashes, and each segment is classified
/// as `.`, `..` or a name.
pub open spec fn parse_spec(s: Seq<char>) -> Seq<CompView> {
    if s.len() > 0 && s[0] == '/' {
        scan_segments(s.skip(1), Seq::empty(), seq![CompView::Root])
    } else {
        scan_segments(s, Seq::empty(), Seq::empty())
    }
}

/// The characters that one component contributes when a path is written out.
pub open spec fn comp_chars(c: CompView) -> Seq<char> {
    match c {
        CompView::Root => seq!['/'],
        CompView::Cur => seq!['.'],
        CompView::Parent => seq!['.', '.'],
        CompView::Prefix(s) => s,
        CompView::Name(n) => n,
    }
}

/// The text of the components of `cs` from position `i` on; `prev_root`
/// says whether the component just before position `i` was the root marker,
/// after which no separating slash is written.
pub open spec fn render_from(cs: Seq<CompView>, i: int, prev_root: bool) -> Seq<char>
    decreases cs.len() - i,
{
    if i >= cs.len() {
        Seq::empty()
    } else {
        let sep: Seq<char> = if i > 0 && !prev_root {
            seq!['/']
        } else {
            Seq::empty()
        };
        sep + comp_chars(cs[i]) + render_from(cs, i + 1, cs[i] is Root)
    }
}

/// The text of a whole path: components separated by slashes, with no
/// separator right after the root marker.
pub open spec fn render_spec(cs: Seq<CompView>) -> Seq<char> {
    render_from(cs, 0, false)
}

/// Push onto `out` whatever the segment `s[start..end]` denotes: nothing
/// for an empty segment, the current- or parent-directory marker for `.`
/// and `..`, and a name otherwise.
fn emit_segment(out: &mut VfsPath, s: &str, start: usize, end: usize)
    requires
        start <= end <= s@.len(),
    ensures
        final(out)@ == old(out)@ + classify_segment(s@.subrange(start as int, end as int)),
{
    let ghost seg = s@.subrange(start as int, end as int);
    let len = end - start;
    if len == 0 {
        proof {
            assert(seg =~= Seq::<char>::empty());
            assert(out@ =~= out@ + classify_segment(seg));
        }
    } else if len == 1 && s.get_char(start) == '.' {
        proof {
            assert(seg =~= seq!['.']);
        }
        out.push(Component::CurDir);
        proof {
            assert(out@ =~= old(out)@ + classify_segment(seg));
        }
    } else if len == 2 && s.get_char(start) == '.' && s.get_char(start + 1) == '.' {
        proof {
            assert(seg =~= seq!['.', '.']);
        }
        out.push(Component::ParentDir);
        proof {
            assert(out@ =~= old(out)@ + classify_segment(seg));
        }
    } else {
        let sub = s.substring_char(start, end);
        out.push(Component::Normal(String::from_str(sub)));
        proof {
            assert(seg.len() >= 1);
            if seg == seq!['.'] {
                assert(seg[0] == '.');
                assert(false);
            }
            if seg == seq!['.', '.'] {
                assert(seg[0] == '.' && seg[1] == '.');
                assert(false);
            }
            assert(out@ =~= old(out)@ + classify_segment(seg));
        }
    }
}

impl VfsPath {
    /// Read a path from its usual slash-separated notation.
    pub fn parse(s: &str) -> (r: VfsPath)
        ensures
            r@ == parse_spec(s@),
    {
        let n = s.unicode_len();
        let mut out = VfsPath::empty();
        let mut i: usize = 0;
        let mut start: usize = 0;
        if n > 0 && s.get_char(0) == '/' {
            out.push(Component::RootDir);
            i = 1;
            start = 1;
            proof {
                assert(out@ =~= seq![CompView::Root]);
            }
        }
        proof {
            assert(s@.subrange(start as int, i as int) =~= Seq::<char>::empty());
            assert(s@.skip(0) =~= s@);
        }
        while i < n
            invariant
                start <= i <= n,
                n == s@.len(),
                parse_spec(s@) == scan_segments(
                    s@.skip(i as int),
                    s@.subrange(start as int, i as int),
                    out@,
                ),
            decreases n - i,
        {
            let c = s.get_char(i);
            proof {
                assert(s@.skip(i as int)[0] == s@[i as int]);
                assert(s@.skip(i as int).skip(1) =~= s@.skip(i + 1 as int));
            }
            if c == '/' {
                emit_segment(&mut out, s, start, i);
                start = i + 1;
                proof {
                    assert(s@.subrange(start as int, start as int) =~= Seq::<char>::empty());
                }
            } else {
                proof {
                    assert(s@.subrange(start as int, i as int).push(s@[i as int]) =~= s@.subrange(
                        start as int,
                        i + 1 as int,
                    ));
                }
            }
            i = i + 1;
        }
        proof {
            assert(s@.skip(n as int) =~= Seq::<char>::empty());
        }
        emit_segment(&mut out, s, start, n);
        out
    }

    /// Write the path out in its usual slash-separated notation.
    pub fn render(&self) -> (r: String)
        ensures
            r@ == render_spec(self@),
    {
        let mut r = String::new();
        let n = self.len();
        let mut i: usize = 0;
        let mut prev_root = false;
        while i < n
            invariant
                i <= n,
                n == self@.len(),
                render_spec(self@) == r@ + render_from(self@, i as int, prev_root),
            decreases n - i,
        {
            proof {
                reveal_strlit("/");
                reveal_strlit(".");
                reveal_strlit("..");
            }
            if i > 0 && !prev_root {
                r.append("/");
            }
            let c = self.component(i);
            match c {
                Component::RootDir => {
                    r.append("/");
                    prev_root = true;
                },
                Component::CurDir => {
                    r.append(".");
                    prev_root = false;
                },
                Component::ParentDir => {
                    r.append("..");
                    prev_root = false;
                },
                Component::Prefix(s) => {
                    r.append(s.as_str());
                    prev_root = false;
                },
                Component::Normal(s) => {
                    r.append(s.as_str());
                    prev_root = false;
                },
            }
            i = i + 1;
        }
        r
    }

    /// Whether the path begins with the root marker.
    pub fn is_absolute(&self) -> (r: bool)
        ensures
            r == (self@.len() > 0 && self@[0] is Root),
    {
        if self.components.len() == 0 {
            false
        } else {
            matches!(self.components[0], Component::RootDir)
        }
    }

    /// Remove the last component, if any.
    pub fn pop_last(&mut self)
        ensures
            old(self)@.len() == 0 ==> final(self)@ == old(self)@,
            old(self)@.len() > 0 ==> final(self)@ == old(self)@.drop_last(),
    {
        if self.components.len() > 0 {
            self.components.pop();
            proof {
                assert(self@ =~= old(self)@.drop_last());
            }
        }
    }

    /// Append all components of `other` at the end.
    pub fn append_path(&mut self, other: &VfsPath)
        ensures
            final(self)@ == old(self)@ + other@,
    {
        let n = other.len();
        let mut i: usize = 0;
        proof {
            assert(self@ =~= old(self)@ + other@.take(0));
        }
        while i < n
            invariant
                i <= n,
                n == other@.len(),
                self@ == old(self)@ + other@.take(i as int),
            decreases n - i,
        {
            self.push(other.component(i).clone());
            proof {
                assert(old(self)@ + other@.take(i as int) + seq![other@[i as int]] =~= old(
                    self,
                )@ + other@.take(i + 1 as int));
                assert(self@ =~= old(self)@ + other@.take(i + 1 as int));
            }
            i = i + 1;
        }
        proof {
            assert(other@.take(n as int) =~= other@);
        }
    }
}

/// Whether two components denote the same thing.
fn component_eq(a: &Component, b: &Component) -> (r: bool)
    ensures
        r == (a@ == b@),
{
    match (a, b) {
        (Component::RootDir, Component::RootDir) => true,
        (Component::CurDir, Component::CurDir) => true,
        (Component::ParentDir, Component::ParentDir) => true,
        (Component::Prefix(x), Component::Prefix(y)) => *x == *y,
        (Component::Normal(x), Component::Normal(y)) => *x == *y,
        _ => false,
    }
}

impl vstd::std_specs::cmp::PartialEqSpecImpl for VfsPath {
    open spec fn obeys_eq_spec() -> bool {
        true
    }

    open spec fn eq_spec(&self, other: &VfsPath) -> bool {
        self@ == other@
    }
}

impl PartialEq for VfsPath {
    /// Two paths are equal when they consist of the same components.
    fn eq(&self, other: &VfsPath) -> (r: bool) {
        if self.components.len() != other.components.len() {
            proof {
                assert(self@.len() != other@.len());
            }
            return false;
        }
        let n = self.components.len();
        let mut i: usize = 0;
        while i < n
            invariant
                i <= n,
                n == self@.len() && n == other@.len(),
                forall|j: int| 0 <= j < i ==> self@[j] == other@[j],
            decreases n - i,
        {
            if !component_eq(&self.components[i], &other.components[i]) {
                proof {
                    assert(self@[i as int] != other@[i as int]);
                }
                return false;
            }
            i = i + 1;
        }
        proof {
            assert(self@ =~= other@);
        }
        true
    }
}

/// What `..` does to an accumulated path: remove the last component, except
/// that the lone root marker and the empty path are left alone.
pub open spec fn lex_pop(acc: Seq<CompView>) -> Seq<CompView> {
    if acc.len() == 0 {
        acc
    } else if acc.len() == 1 && acc[0] is Root {
        acc
    } else {
        acc.drop_last()
    }
}

/// One step of lexical reduction: how a single component changes the
/// accumulated path.  A root marker resets the accumulator, `.` is skipped,
/// `..` removes the last component but never escapes above the root, and
/// names and prefixes are appended.
pub open spec fn lex_step(acc: Seq<CompView>, c: CompView) -> Seq<CompView> {
    match c {
        CompView::Root => seq![CompView::Root],
        CompView::Cur => acc,
        CompView::Parent => {
            let p = lex_pop(acc);
            if p.len() == 0 {
                seq![CompView::Root]
            } else {
                p
            }
        },
        CompView::Prefix(s) => acc.push(CompView::Prefix(s)),
        CompView::Name(n) => acc.push(CompView::Name(n)),
    }
}

/// Lexical reduction of all of `cs`, starting from the accumulator `acc`.
pub open spec fn lex_fold(acc: Seq<CompView>, cs: Seq<CompView>) -> Seq<CompView>
    decreases cs.len(),
{
    if cs.len() == 0 {
        acc
    } else {
        lex_fold(lex_step(acc, cs[0]), cs.skip(1))
    }
}

/// Purely lexical normalization: `.`, `..` and root markers are reduced with
/// no reference to any filesystem, and an empty result becomes the root.
pub open spec fn normalize_spec(cs: Seq<CompView>) -> Seq<CompView> {
    let r = lex_fold(Seq::empty(), cs);
    if r.len() == 0 {
        seq![CompView::Root]
    } else {
        r
    }
}

impl VfsPath {
    /// Apply one component of lexical reduction to `self` as the
    /// accumulator, in place.
    pub(crate) fn apply_lex_step(&mut self, c: &Component)
        ensures
            final(self)@ == lex_step(old(self)@, c@),
    {
        match c {
            Component::RootDir => {
                self.components.clear();
                self.components.push(Component::RootDir);
                proof {
                    assert(self@ =~= lex_step(old(self)@, c@));
                }
            },
            Component::CurDir => {
                proof {
                    assert(self@ =~= lex_step(old(self)@, c@));
                }
            },
            Component::ParentDir => {
                let n = self.components.len();
                if n == 0 {
                    self.components.push(Component::RootDir);
                } else if n == 1 && matches!(self.components[0], Component::RootDir) {
                    // a lone root marker absorbs `..`
                } else {
                    self.components.pop();
                    if self.components.len() == 0 {
                        self.components.push(Component::RootDir);
                    }
                }
                proof {
                    assert(self@ =~= lex_step(old(self)@, c@));
                }
            },
            Component::Prefix(_) => {
                self.components.push(c.clone());
                proof {
                    assert(self@ =~= lex_step(old(self)@, c@));
                }
            },
            Component::Normal(_) => {
                self.components.push(c.clone());
                proof {
                    assert(self@ =~= lex_step(old(self)@, c@));
                }
            },
        }
    }
}

/// Lexical path normalization without filesystem access: reduces `.`, `..`
/// and repeated root markers, and turns an empty result into the root.
/// Symlinks are not followed.
pub fn lexical_normalize(path: &VfsPath) -> (r: VfsPath)
    ensures
        r@ == normalize_spec(path@),
{
    let mut acc = VfsPath::empty();
    let n = path.len();
    let mut i: usize = 0;
    proof {
        assert(path@.skip(0) =~= path@);
    }
    while i < n
        invariant
            i <= n,
            n == path@.len(),
            lex_fold(acc@, path@.skip(i as int)) == lex_fold(Seq::empty(), path@),
        decreases n - i,
    {
        proof {
            assert(path@.skip(i as int)[0] == path@[i as int]);
            assert(path@.skip(i as int).skip(1) =~= path@.skip(i + 1 as int));
        }
        acc.apply_lex_step(path.component(i));
        i = i + 1;
    }
    proof {
        assert(path@.skip(n as int) =~= Seq::<CompView>::empty());
    }
    if acc.len() == 0 {
        VfsPath::root()
    } else {
        acc
    }
}

} // verus!
