//! Static-file service: traversal-safe path resolution, the decision between
//! serving a file, a default file, a directory listing or an error, and the
//! listing page itself.
use vstd::prelude::*;
use crate::text::push_char;
use crate::response::Response;
use vstd::utf8::encode_utf8;
use vstd::multiset::Multiset;

verus! {

/// The pieces of `s` between `/` separators, empty pieces included.
pub open spec fn split_on_slash(s: Seq<char>) -> Seq<Seq<char>>
    decreases s.len(),
{
    if s.len() == 0 {
        seq![Seq::<char>::empty()]
    } else {
        let prev = split_on_slash(s.drop_last());
        if s.last() == '/' {
            prev.push(Seq::<char>::empty())
        } else {
            prev.update(prev.len() - 1, prev.last().push(s.last()))
        }
    }
}

/// A piece that names something: not empty, not `.` and not `..`.
pub open spec fn is_named_segment(seg: Seq<char>) -> bool {
    seg.len() != 0 && seg != seq!['.'] && seg != seq!['.', '.']
}

/// The named pieces of `segs`, in order.
pub open spec fn named_segments(segs: Seq<Seq<char>>) -> Seq<Seq<char>>
    decreases segs.len(),
{
    if segs.len() == 0 {
        Seq::empty()
    } else {
        let prev = named_segments(segs.drop_last());
        if is_named_segment(segs.last()) {
            prev.push(segs.last())
        } else {
            prev
        }
    }
}

/// `p` followed by a `/`, unless it is empty or already ends with one.
pub open spec fn with_separator(p: Seq<char>) -> Seq<char> {
    if p.len() == 0 || p.last() == '/' {
        p
    } else {
        p.push('/')
    }
}

/// `segs` joined below `root`, one separator between neighbours.
pub open spec fn join_below(root: Seq<char>, segs: Seq<Seq<char>>) -> Seq<char>
    decreases segs.len(),
{
    if segs.len() == 0 {
        root
    } else {
        with_separator(join_below(root, segs.drop_last())) + segs.last()
    }
}

/// The filesystem path that request path `path` names below `root`: the
/// pieces of the path that are empty, `.` or `..` are dropped.
pub open spec fn resolve_below(root: Seq<char>, path: Seq<char>) -> Seq<char> {
    join_below(root, named_segments(split_on_slash(path)))
}

proof fn lemma_named_segments_are_named(segs: Seq<Seq<char>>)
    ensures
        forall|i: int|
            0 <= i < named_segments(segs).len() ==> is_named_segment(
                #[trigger] named_segments(segs)[i],
            ),
    decreases segs.len(),
{
    if segs.len() > 0 {
        lemma_named_segments_are_named(segs.drop_last());
        let prev = named_segments(segs.drop_last());
        assert forall|i: int| 0 <= i < named_segments(segs).len() implies is_named_segment(
            #[trigger] named_segments(segs)[i],
        ) by {
            if i < prev.len() {
                assert(named_segments(segs)[i] == prev[i]);
            }
        }
    }
}

proof fn lemma_join_keeps_root(root: Seq<char>, segs: Seq<Seq<char>>)
    ensures
        root.is_prefix_of(join_below(root, segs)),
    decreases segs.len(),
{
    if segs.len() > 0 {
        lemma_join_keeps_root(root, segs.drop_last());
        let p = join_below(root, segs.drop_last());
        assert(root.is_prefix_of(with_separator(p) + segs.last())) by {
            assert forall|i: int| 0 <= i < root.len() implies #[trigger] (with_separator(p)
                + segs.last())[i] == root[i] by {
                assert(p[i] == root[i]);
            }
        }
    }
}

/// Whatever the request path, the resolved path begins with the document
/// root, and every piece appended below the root is a name: none is `..`,
/// `.` or empty.
pub proof fn lemma_resolution_stays_below_root(root: Seq<char>, path: Seq<char>)
    ensures
        root.is_prefix_of(resolve_below(root, path)),
        resolve_below(root, path) == join_below(root, named_segments(split_on_slash(path))),
        forall|i: int|
            0 <= i < named_segments(split_on_slash(path)).len() ==> #[trigger] named_segments(
                split_on_slash(path),
            )[i] != seq!['.', '.'],
{
    lemma_join_keeps_root(root, named_segments(split_on_slash(path)));
    lemma_named_segments_are_named(split_on_slash(path));
}

/// Whether the piece `seg` is a name.
fn segment_is_named(seg: &String) -> (r: bool)
    ensures
        r == is_named_segment(seg@),
{
    let n = seg.as_str().unicode_len();
    if n == 0 {
        return false;
    }
    let c0 = seg.as_str().get_char(0);
    if n == 1 {
        if c0 == '.' {
            assert(seg@ =~= seq!['.']);
            return false;
        }
        return true;
    }
    if n == 2 {
        let c1 = seg.as_str().get_char(1);
        if c0 == '.' && c1 == '.' {
            assert(seg@ =~= seq!['.', '.']);
            return false;
        }
        if c0 != '.' {
            assert(seg@[0] != seq!['.', '.'][0]);
        } else {
            assert(seg@[1] != seq!['.', '.'][1]);
        }
        return true;
    }
    true
}

/// Appends `seg` below the path `out`.
pub fn append_below(out: &mut String, seg: &String)
    ensures
        final(out)@ == with_separator(old(out)@) + seg@,
{
    let n = out.as_str().unicode_len();
    if n > 0 && out.as_str().get_char(n - 1) != '/' {
        push_char(out, '/');
    }
    out.append(seg.as_str());
}

/// The filesystem path for request path `path` below `root`: `..`, `.` and
/// empty pieces are dropped, so the result never leaves `root`.
pub fn resolve_path(root: &str, path: &str) -> (r: String)
    ensures
        r@ == resolve_below(root@, path@),
        root@.is_prefix_of(r@),
{
    let n = path.unicode_len();
    let mut out = root.to_owned();
    let mut cur = String::new();
    let ghost mut done: Seq<Seq<char>> = Seq::empty();
    let mut i: usize = 0;
    while i < n
        invariant
            n == path@.len(),
            i <= n,
            split_on_slash(path@.subrange(0, i as int)) == done.push(cur@),
            out@ == join_below(root@, named_segments(done)),
        decreases n - i,
    {
        let c = path.get_char(i);
        let ghost prefix = path@.subrange(0, i as int);
        assert(path@.subrange(0, i + 1).drop_last() =~= prefix);
        if c == '/' {
            if segment_is_named(&cur) {
                append_below(&mut out, &cur);
            }
            proof {
                assert(done.push(cur@).drop_last() =~= done);
                assert(done.push(cur@).last() == cur@);
                assert(named_segments(done).push(cur@).drop_last() =~= named_segments(done));
                done = done.push(cur@);
            }
            cur = String::new();
        } else {
            push_char(&mut cur, c);
            assert(split_on_slash(path@.subrange(0, i + 1)) =~= done.push(cur@));
        }
        i = i + 1;
    }
    proof {
        assert(done.push(cur@).drop_last() =~= done);
        assert(done.push(cur@).last() == cur@);
        assert(named_segments(done).push(cur@).drop_last() =~= named_segments(done));
    }
    if segment_is_named(&cur) {
        append_below(&mut out, &cur);
    }
    proof {
        assert(path@.subrange(0, n as int) =~= path@);
        lemma_resolution_stays_below_root(root@, path@);
    }
    out
}

/// One entry of a directory, as read from the filesystem.
pub struct DirEntry {
    pub name: String,
    pub is_dir: bool,
}

/// `a` comes strictly before `b` in character order.
pub open spec fn name_less(a: Seq<char>, b: Seq<char>) -> bool
    decreases a.len(),
{
    if b.len() == 0 {
        false
    } else if a.len() == 0 {
        true
    } else if a[0] != b[0] {
        a[0] < b[0]
    } else {
        name_less(a.drop_first(), b.drop_first())
    }
}

/// Listing order: directories before files, each group by name.
pub open spec fn entry_less(a: DirEntry, b: DirEntry) -> bool {
    (a.is_dir && !b.is_dir) || (a.is_dir == b.is_dir && name_less(a.name@, b.name@))
}

/// `s` is in listing order.
pub open spec fn in_listing_order(s: Seq<DirEntry>) -> bool {
    forall|i: int, j: int| 0 <= i < j < s.len() ==> !entry_less(#[trigger] s[j], #[trigger] s[i])
}

/// A sequence in listing order has every directory before every file, and
/// within each group no name comes after a later one.
pub proof fn lemma_listing_order_groups(s: Seq<DirEntry>)
    requires
        in_listing_order(s),
    ensures
        forall|i: int, j: int|
            0 <= i < j < s.len() ==> (#[trigger] s[j].is_dir ==> #[trigger] s[i].is_dir),
        forall|i: int, j: int|
            0 <= i < j < s.len() && #[trigger] s[i].is_dir == #[trigger] s[j].is_dir ==> !name_less(
                s[j].name@,
                s[i].name@,
            ),
{
    assert forall|i: int, j: int| 0 <= i < j < s.len() implies (#[trigger] s[j].is_dir
        ==> #[trigger] s[i].is_dir) by {
        assert(!entry_less(s[j], s[i]));
    }
    assert forall|i: int, j: int|
        0 <= i < j < s.len() && #[trigger] s[i].is_dir == #[trigger] s[j].is_dir implies !name_less(
        s[j].name@,
        s[i].name@,
    ) by {
        assert(!entry_less(s[j], s[i]));
    }
}

proof fn lemma_name_less_transitive(a: Seq<char>, b: Seq<char>, c: Seq<char>)
    requires
        name_less(a, b),
        name_less(b, c),
    ensures
        name_less(a, c),
    decreases a.len(),
{
    if a.len() > 0 && b.len() > 0 && c.len() > 0 && a[0] == b[0] && b[0] == c[0] {
        lemma_name_less_transitive(a.drop_first(), b.drop_first(), c.drop_first());
    }
}

proof fn lemma_name_less_irreflexive(a: Seq<char>)
    ensures
        !name_less(a, a),
    decreases a.len(),
{
    if a.len() > 0 {
        lemma_name_less_irreflexive(a.drop_first());
    }
}

proof fn lemma_entry_less_transitive(a: DirEntry, b: DirEntry, c: DirEntry)
    requires
        entry_less(a, b),
        entry_less(b, c),
    ensures
        entry_less(a, c),
{
    if a.is_dir == b.is_dir && b.is_dir == c.is_dir {
        lemma_name_less_transitive(a.name@, b.name@, c.name@);
    }
}

/// Whether `a` comes strictly before `b` in character order.
fn names_less(a: &String, b: &String) -> (r: bool)
    ensures
        r == name_less(a@, b@),
{
    let al = a.as_str().unicode_len();
    let bl = b.as_str().unicode_len();
    let mut i: usize = 0;
    assert(a@.skip(0) =~= a@);
    assert(b@.skip(0) =~= b@);
    while i < al && i < bl
        invariant
            al == a@.len(),
            bl == b@.len(),
            i <= al,
            i <= bl,
            name_less(a@, b@) == name_less(a@.skip(i as int), b@.skip(i as int)),
        decreases al - i,
    {
        let x = a.as_str().get_char(i);
        let y = b.as_str().get_char(i);
        if x != y {
            return x < y;
        }
        assert(a@.skip(i as int).drop_first() =~= a@.skip(i + 1));
        assert(b@.skip(i as int).drop_first() =~= b@.skip(i + 1));
        i = i + 1;
    }
    i < bl
}

/// Whether `a` comes strictly before `b` in listing order.
fn entry_before(a: &DirEntry, b: &DirEntry) -> (r: bool)
    ensures
        r == entry_less(*a, *b),
{
    if a.is_dir != b.is_dir {
        a.is_dir
    } else {
        names_less(&a.name, &b.name)
    }
}

/// The entries in listing order: directories first, then files, each group
/// alphabetical by name.
pub fn sort_entries(entries: Vec<DirEntry>) -> (r: Vec<DirEntry>)
    ensures
        in_listing_order(r@),
        r@.to_multiset() == entries@.to_multiset(),
{
    broadcast use vstd::seq_lib::group_to_multiset_ensures;

    let mut rest = entries;
    let mut out: Vec<DirEntry> = Vec::new();
    while rest.len() > 0
        invariant
            in_listing_order(out@),
            out@.to_multiset().add(rest@.to_multiset()) == entries@.to_multiset(),
            forall|i: int, j: int|
                0 <= i < out@.len() && 0 <= j < rest@.len() ==> !entry_less(
                    #[trigger] rest@[j],
                    #[trigger] out@[i],
                ),
        decreases rest@.len(),
    {
        let mut k: usize = 0;
        let mut j: usize = 1;
        proof {
            lemma_name_less_irreflexive(rest@[0].name@);
        }
        while j < rest.len()
            invariant
                0 < rest@.len(),
                k < rest@.len(),
                k < j <= rest@.len(),
                forall|m: int| 0 <= m < j ==> !entry_less(#[trigger] rest@[m], rest@[k as int]),
            decreases rest@.len() - j,
        {
            if entry_before(&rest[j], &rest[k]) {
                proof {
                    assert forall|m: int| 0 <= m < j + 1 implies !entry_less(
                        #[trigger] rest@[m],
                        rest@[j as int],
                    ) by {
                        lemma_name_less_irreflexive(rest@[j as int].name@);
                        if m < j && entry_less(rest@[m], rest@[j as int]) {
                            lemma_entry_less_transitive(rest@[m], rest@[j as int], rest@[k as int]);
                        }
                    }
                }
                k = j;
            }
            j = j + 1;
        }
        let ghost old_rest = rest@;
        let ghost old_out = out@;
        let m = rest.remove(k);
        proof {
            old_rest.to_multiset_ensures();
            assert(old_rest.remove(k as int) =~= rest@);
            assert(old_rest.remove(k as int).to_multiset() =~= old_rest.to_multiset().remove(m));
        }
        out.push(m);
        proof {
            old_out.to_multiset_ensures();
            assert(out@.to_multiset() =~= old_out.to_multiset().insert(m));
            assert(out@.to_multiset().add(rest@.to_multiset()) =~= entries@.to_multiset());
            assert forall|a: int, b: int| 0 <= a < b < out@.len() implies !entry_less(
                #[trigger] out@[b],
                #[trigger] out@[a],
            ) by {
                if b == out@.len() - 1 {
                    assert(old_rest[k as int] == m);
                }
            }
            assert forall|a: int, b: int| 0 <= a < out@.len() && 0 <= b < rest@.len() implies !entry_less(
                #[trigger] rest@[b],
                #[trigger] out@[a],
            ) by {
                let ob = if b < k { b } else { b + 1 };
                assert(rest@[b] == old_rest[ob]);
            }
        }
    }
    assert(rest@.to_multiset() =~= Multiset::empty());
    assert(out@.to_multiset().add(Multiset::empty()) =~= out@.to_multiset());
    out
}

/// `s` without its trailing `/` characters.
pub open spec fn trim_trailing_slashes(s: Seq<char>) -> Seq<char>
    decreases s.len(),
{
    if s.len() > 0 && s.last() == '/' {
        trim_trailing_slashes(s.drop_last())
    } else {
        s
    }
}

/// The link of entry `e` in the listing of `req_path`.
pub open spec fn entry_url(req_path: Seq<char>, e: DirEntry) -> Seq<char> {
    trim_trailing_slashes(req_path) + "/"@ + e.name@ + if e.is_dir {
        "/"@
    } else {
        Seq::<char>::empty()
    }
}

/// The kind column of entry `e`.
pub open spec fn entry_kind(e: DirEntry) -> Seq<char> {
    if e.is_dir {
        "Directory"@
    } else {
        "File"@
    }
}

/// The table row of entry `e`.
pub open spec fn listing_row(req_path: Seq<char>, e: DirEntry) -> Seq<char> {
    "<tr><td><a href=\""@ + entry_url(req_path, e) + "\">"@ + e.name@ + "</a></td><td>"@
        + entry_kind(e) + "</td></tr>\n"@
}

/// The rows of `es`, in order.
pub open spec fn listing_rows(req_path: Seq<char>, es: Seq<DirEntry>) -> Seq<char>
    decreases es.len(),
{
    if es.len() == 0 {
        Seq::empty()
    } else {
        listing_rows(req_path, es.drop_last()) + listing_row(req_path, es.last())
    }
}

/// The row that links to the parent directory, absent at the root.
pub open spec fn parent_row(req_path: Seq<char>) -> Seq<char> {
    if req_path != "/"@ {
        "<tr><td><a href=\"..\">..</a></td><td>Parent Directory</td></tr>\n"@
    } else {
        Seq::empty()
    }
}

/// The listing page of `req_path` showing `es` in the given order.
pub open spec fn listing_page(req_path: Seq<char>, es: Seq<DirEntry>) -> Seq<char> {
    "<!DOCTYPE html>\n<html>\n<head>\n<title>Directory listing for "@ + req_path + "</title>\n"@
        + LISTING_STYLE@ + "</head>\n<body>\n<h1>Directory listing for "@ + req_path
        + "</h1>\n<table>\n<tr><th>Name</th><th>Type</th></tr>\n"@ + parent_row(req_path)
        + listing_rows(req_path, es) + "</table>\n</body>\n</html>"@
}

/// The style sheet of the listing page.
pub const LISTING_STYLE: &'static str = "<style>\nbody { font-family: Arial, sans-serif; margin: 20px; }\nh1 { border-bottom: 1px solid #ccc; padding-bottom: 10px; }\ntable { border-collapse: collapse; width: 100%; }\nth, td { text-align: left; padding: 8px; }\ntr:nth-child(even) { background-color: #f2f2f2; }\na { text-decoration: none; }\na:hover { text-decoration: underline; }\n</style>\n";

/// The body of the answer when a directory may not be listed.
pub const LISTING_DISABLED_BODY: &'static str = "<h1>403 Forbidden</h1><p>Directory listing is disabled.</p>";

/// `s` without its trailing `/` characters.
fn trimmed_path(s: &str) -> (r: String)
    ensures
        r@ == trim_trailing_slashes(s@),
{
    let mut n = s.unicode_len();
    assert(s@.subrange(0, n as int) =~= s@);
    while n > 0 && s.get_char(n - 1) == '/'
        invariant
            n <= s@.len(),
            trim_trailing_slashes(s@) == trim_trailing_slashes(s@.subrange(0, n as int)),
        decreases n,
    {
        assert(s@.subrange(0, n as int).drop_last() =~= s@.subrange(0, n - 1));
        n = n - 1;
    }
    assert(s@.subrange(0, 0) =~= Seq::<char>::empty());
    s.substring_char(0, n).to_owned()
}

/// Whether `s` is exactly `/`.
fn is_root_path(s: &str) -> (r: bool)
    ensures
        r == (s@ == "/"@),
{
    proof {
        reveal_strlit("/");
    }
    if s.unicode_len() == 1 && s.get_char(0) == '/' {
        assert(s@ =~= "/"@);
        true
    } else {
        false
    }
}

/// The listing page of `req_path` for `entries`, shown in the given order.
pub fn render_listing(req_path: &str, entries: &Vec<DirEntry>) -> (r: String)
    ensures
        r@ == listing_page(req_path@, entries@),
{
    let mut html = String::new();
    html.append("<!DOCTYPE html>\n<html>\n<head>\n<title>Directory listing for ");
    html.append(req_path);
    html.append("</title>\n");
    html.append(LISTING_STYLE);
    html.append("</head>\n<body>\n<h1>Directory listing for ");
    html.append(req_path);
    html.append("</h1>\n<table>\n<tr><th>Name</th><th>Type</th></tr>\n");
    if !is_root_path(req_path) {
        html.append("<tr><td><a href=\"..\">..</a></td><td>Parent Directory</td></tr>\n");
    }
    let ghost head = html@;
    let base = trimmed_path(req_path);
    let mut i: usize = 0;
    while i < entries.len()
        invariant
            i <= entries@.len(),
            base@ == trim_trailing_slashes(req_path@),
            html@ == head + listing_rows(req_path@, entries@.subrange(0, i as int)),
        decreases entries@.len() - i,
    {
        let e = &entries[i];
        html.append("<tr><td><a href=\"");
        html.append(base.as_str());
        html.append("/");
        html.append(e.name.as_str());
        if e.is_dir {
            html.append("/");
        }
        html.append("\">");
        html.append(e.name.as_str());
        html.append("</a></td><td>");
        if e.is_dir {
            html.append("Directory");
        } else {
            html.append("File");
        }
        html.append("</td></tr>\n");
        proof {
            let es = entries@.subrange(0, i + 1);
            assert(es.drop_last() =~= entries@.subrange(0, i as int));
            assert(es.last() == *e);
            assert(html@ =~= head + listing_rows(req_path@, es));
        }
        i = i + 1;
    }
    html.append("</table>\n</body>\n</html>");
    assert(entries@.subrange(0, entries@.len() as int) =~= entries@);
    assert(html@ =~= listing_page(req_path@, entries@));
    html
}

/// What the filesystem holds at a resolved path.
#[derive(PartialEq, Eq, Structural, Clone, Copy, Debug)]
pub enum PathKind {
    Missing,
    File,
    Directory,
}

/// What to answer for a static-file request.
#[derive(Debug)]
pub enum StaticPlan {
    /// Read and send the file at this path.
    ServeFile(String),
    /// Send a listing of this directory.
    ListDirectory(String),
    /// The directory may not be listed: 403.
    Forbidden,
    /// Nothing to send: 404.
    NotFound,
}

/// The meaning of a [`StaticPlan`], with paths as character sequences.
pub enum PlanView {
    ServeFile(Seq<char>),
    ListDirectory(Seq<char>),
    Forbidden,
    NotFound,
}

impl View for StaticPlan {
    type V = PlanView;

    open spec fn view(&self) -> PlanView {
        match self {
            StaticPlan::ServeFile(p) => PlanView::ServeFile(p@),
            StaticPlan::ListDirectory(p) => PlanView::ListDirectory(p@),
            StaticPlan::Forbidden => PlanView::Forbidden,
            StaticPlan::NotFound => PlanView::NotFound,
        }
    }
}

/// Name of the page that a single-page application falls back to.
pub const SPA_INDEX: &'static str = "index.html";

/// Serves files below a document root.
pub struct StaticFileHandler {
    root_dir: String,
    enable_directory_listing: bool,
    default_file: String,
    spa: bool,
}

impl StaticFileHandler {
    pub closed spec fn root(&self) -> Seq<char> {
        self.root_dir@
    }

    pub closed spec fn listing_enabled(&self) -> bool {
        self.enable_directory_listing
    }

    pub closed spec fn default_name(&self) -> Seq<char> {
        self.default_file@
    }

    pub closed spec fn spa_enabled(&self) -> bool {
        self.spa
    }

    /// A handler for files below `root_dir`; directories are answered with
    /// `default_file` when they hold one. Single-page fallback is off.
    pub fn new(root_dir: &str, enable_directory_listing: bool, default_file: String) -> (r: Self)
        ensures
            r.root() == root_dir@,
            r.listing_enabled() == enable_directory_listing,
            r.default_name() == default_file@,
            !r.spa_enabled(),
    {
        StaticFileHandler {
            root_dir: root_dir.to_owned(),
            enable_directory_listing,
            default_file,
            spa: false,
        }
    }

    /// The same handler with single-page fallback switched on or off.
    pub fn with_spa(self, spa: bool) -> (r: Self)
        ensures
            r.root() == self.root(),
            r.listing_enabled() == self.listing_enabled(),
            r.default_name() == self.default_name(),
            r.spa_enabled() == spa,
    {
        StaticFileHandler { spa, ..self }
    }

    /// The filesystem path for request path `path`; it never leaves the root.
    pub fn get_file_path(&self, path: &str) -> (r: String)
        ensures
            r@ == resolve_below(self.root(), path@),
            self.root().is_prefix_of(r@),
    {
        resolve_path(self.root_dir.as_str(), path)
    }

    /// The default file inside directory `dir`.
    pub fn default_file_path(&self, dir: &str) -> (r: String)
        ensures
            r@ == with_separator(dir@) + self.default_name(),
    {
        let mut r = dir.to_owned();
        append_below(&mut r, &self.default_file);
        r
    }

    /// The page that single-page fallback serves.
    pub fn spa_index_path(&self) -> (r: String)
        ensures
            r@ == with_separator(self.root()) + SPA_INDEX@,
    {
        let mut r = self.root_dir.clone();
        let index = SPA_INDEX.to_owned();
        append_below(&mut r, &index);
        r
    }

    /// What to answer for request path `req_path`, given what the filesystem
    /// holds at its resolved path (`target`), whether that directory holds
    /// the default file, and whether the fallback page exists.
    pub fn plan(&self, req_path: &str, target: PathKind, default_present: bool, index_present: bool) -> (r: StaticPlan)
        ensures
            match target {
                PathKind::File => r@ == PlanView::ServeFile(resolve_below(self.root(), req_path@)),
                PathKind::Directory => {
                    let dir = resolve_below(self.root(), req_path@);
                    if default_present {
                        r@ == PlanView::ServeFile(with_separator(dir) + self.default_name())
                    } else if self.listing_enabled() {
                        r@ == PlanView::ListDirectory(dir)
                    } else {
                        r@ == PlanView::Forbidden
                    }
                },
                PathKind::Missing => if self.spa_enabled() && index_present {
                    r@ == PlanView::ServeFile(with_separator(self.root()) + SPA_INDEX@)
                } else {
                    r@ == PlanView::NotFound
                },
            },
    {
        match target {
            PathKind::File => StaticPlan::ServeFile(self.get_file_path(req_path)),
            PathKind::Directory => {
                let dir = self.get_file_path(req_path);
                if default_present {
                    StaticPlan::ServeFile(self.default_file_path(dir.as_str()))
                } else if self.enable_directory_listing {
                    StaticPlan::ListDirectory(dir)
                } else {
                    StaticPlan::Forbidden
                }
            },
            PathKind::Missing => {
                if self.spa && index_present {
                    StaticPlan::ServeFile(self.spa_index_path())
                } else {
                    StaticPlan::NotFound
                }
            },
        }
    }

    /// The answer for directory `req_path` whose entries are `entries`: a
    /// listing page with directories first, each group alphabetical, or 403
    /// when listing is disabled.
    pub fn list_directory(&self, req_path: &str, entries: Vec<DirEntry>) -> (r: Response)
        ensures
            !self.listing_enabled() ==> r.spec_status() == 403 && r.spec_body() == encode_utf8(
                LISTING_DISABLED_BODY@,
            ),
            self.listing_enabled() ==> r.spec_status() == 200 && exists|s: Seq<DirEntry>|
                in_listing_order(s) && s.to_multiset() == entries@.to_multiset() && r.spec_body()
                    == encode_utf8(#[trigger] listing_page(req_path@, s)),
            r.spec_header("content-type"@) == Some("text/html"@),
    {
        if !self.enable_directory_listing {
            return Response::html(403, LISTING_DISABLED_BODY);
        }
        let sorted = sort_entries(entries);
        let html = render_listing(req_path, &sorted);
        Response::html(200, html.as_str())
    }
}

} // verus!
