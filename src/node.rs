//! The Node.js runtime: the official release table, the index of alternate
//! builds, the choice of a release under a version constraint, and the
//! layout of an unpacked release.
use vstd::prelude::*;

use crate::target::{Arch, Os, ResolveError, Target, Variant};
use crate::text::{replace_text, replaced, trim_text, trimmed};
use crate::version::{
    admits_version, constraint_text, project_constraint, resolve_constraint, satisfies,
    VersionConstraint,
};

verus! {

/// A release's long-term-support field, which the index gives either as a
/// code name or as a flag.
#[derive(Clone, Debug, PartialEq, Eq)]
pub enum Lts {
    Name(String),
    Flag(bool),
}

impl Lts {
    pub open spec fn is_lts_spec(&self) -> bool {
        match self {
            Lts::Name(_) => true,
            Lts::Flag(b) => *b,
        }
    }

    /// Whether the release is a long-term-support release.
    pub fn is_lts(&self) -> (r: bool)
        ensures
            r == self.is_lts_spec(),
    {
        match self {
            Lts::Name(_) => true,
            Lts::Flag(b) => *b,
        }
    }
}

/// One record of the index of alternate builds, reduced to the fields that
/// selection reads.
#[derive(Clone, Debug, PartialEq, Eq)]
pub struct IndexRecord {
    /// Version label, `v` marker included (`v20.1.0`).
    pub version: String,
    /// Keys of the builds published for this version (`linux-x64-musl`, ...).
    pub files: Vec<String>,
    pub lts: Lts,
    pub security: bool,
}

/// A downloadable release: its version label and location.
#[derive(Clone, Debug, PartialEq, Eq)]
pub struct Release {
    pub version: String,
    pub url: String,
    pub lts: bool,
}

impl View for Release {
    type V = (Seq<char>, Seq<char>, bool);

    open spec fn view(&self) -> (Seq<char>, Seq<char>, bool) {
        (self.version@, self.url@, self.lts)
    }
}

/// The archive of the official listing for a target.
pub open spec fn official_file_spec(t: Target) -> Seq<char> {
    match (t.os, t.arch) {
        (Os::Windows, _) => "win-x64.zip"@,
        (Os::Linux, Arch::Armv7) => "linux-armv7l.tar.gz"@,
        (Os::Linux, Arch::Arm64) => "linux-arm64.tar.gz"@,
        (Os::Linux, _) => "linux-x64.tar.gz"@,
        (Os::Mac, Arch::Arm64) => "darwin-arm64.tar.gz"@,
        (Os::Mac, _) => "darwin-x64.tar.gz"@,
    }
}

/// The archive name of the official listing for a target.
pub fn official_file(t: &Target) -> (r: &'static str)
    ensures
        r@ == official_file_spec(*t),
{
    match (t.os, t.arch) {
        (Os::Windows, _) => "win-x64.zip",
        (Os::Linux, Arch::Armv7) => "linux-armv7l.tar.gz",
        (Os::Linux, Arch::Arm64) => "linux-arm64.tar.gz",
        (Os::Linux, _) => "linux-x64.tar.gz",
        (Os::Mac, Arch::Arm64) => "darwin-arm64.tar.gz",
        (Os::Mac, _) => "darwin-x64.tar.gz",
    }
}

/// For the index of alternate builds: the key a record must list for the
/// target, and the archive name under which that build is published.
pub open spec fn alternate_file_spec(t: Target) -> (Seq<char>, Seq<char>) {
    match (t.os, t.arch, t.variant) {
        (Os::Windows, Arch::Arm64, _) => ("win-arm64-zip"@, "win-arm64.zip"@),
        (Os::Windows, _, _) => ("win-x64-zip"@, "win-x64.zip"@),
        (Os::Linux, Arch::Armv7, Some(Variant::Musl)) => (
            "linux-armv7l-musl"@,
            "linux-armv7l-musl.tar.gz"@,
        ),
        (Os::Linux, Arch::Arm64, Some(Variant::Musl)) => (
            "linux-arm64-musl"@,
            "linux-arm64-musl.tar.gz"@,
        ),
        (Os::Linux, Arch::X86_64, Some(Variant::Musl)) => (
            "linux-x64-musl"@,
            "linux-x64-musl.tar.gz"@,
        ),
        (Os::Linux, Arch::Armv7, _) => ("linux-armv7l"@, "linux-armv7l.tar.gz"@),
        (Os::Linux, Arch::Arm64, _) => ("linux-arm64"@, "linux-arm64.tar.gz"@),
        _ => ("linux-x64"@, "linux-x64.tar.gz"@),
    }
}

/// The build key and archive name of the index of alternate builds.
pub fn alternate_file(t: &Target) -> (r: (&'static str, &'static str))
    ensures
        (r.0@, r.1@) == alternate_file_spec(*t),
{
    match (t.os, t.arch, t.variant) {
        (Os::Windows, Arch::Arm64, _) => ("win-arm64-zip", "win-arm64.zip"),
        (Os::Windows, _, _) => ("win-x64-zip", "win-x64.zip"),
        (Os::Linux, Arch::Armv7, Some(Variant::Musl)) => (
            "linux-armv7l-musl",
            "linux-armv7l-musl.tar.gz",
        ),
        (Os::Linux, Arch::Arm64, Some(Variant::Musl)) => (
            "linux-arm64-musl",
            "linux-arm64-musl.tar.gz",
        ),
        (Os::Linux, Arch::X86_64, Some(Variant::Musl)) => (
            "linux-x64-musl",
            "linux-x64-musl.tar.gz",
        ),
        (Os::Linux, Arch::Armv7, _) => ("linux-armv7l", "linux-armv7l.tar.gz"),
        (Os::Linux, Arch::Arm64, _) => ("linux-arm64", "linux-arm64.tar.gz"),
        _ => ("linux-x64", "linux-x64.tar.gz"),
    }
}

/// Location of an alternate build: `<base>/<version>/node-<version>-<archive>`.
pub open spec fn alternate_url(version: Seq<char>, archive: Seq<char>) -> Seq<char> {
    "https://unofficial-builds.nodejs.org/download/release/"@ + version + "/node-"@ + version
        + "-"@ + archive
}

/// Whether one of the keys equals `key`.
pub open spec fn lists_file(files: Seq<String>, key: Seq<char>) -> bool {
    exists|k: int| 0 <= k < files.len() && #[trigger] files[k]@ == key
}

/// The release that a record of the index gives for a build key, if the
/// record lists that build.
pub open spec fn record_entry(rec: IndexRecord, key: Seq<char>, archive: Seq<char>) -> Option<
    (Seq<char>, Seq<char>, bool),
> {
    if lists_file(rec.files@, key) {
        Some((rec.version@, alternate_url(rec.version@, archive), rec.lts.is_lts_spec()))
    } else {
        None
    }
}

/// The releases of the index that publish a build for the key, in the
/// index's order.
pub open spec fn alternate_listing(s: Seq<IndexRecord>, key: Seq<char>, archive: Seq<char>) -> Seq<
    (Seq<char>, Seq<char>, bool),
>
    decreases s.len(),
{
    if s.len() == 0 {
        Seq::empty()
    } else {
        let prev = alternate_listing(s.drop_last(), key, archive);
        match record_entry(s.last(), key, archive) {
            Some(e) => prev.push(e),
            None => prev,
        }
    }
}

pub open spec fn views(v: Seq<Release>) -> Seq<(Seq<char>, Seq<char>, bool)> {
    v.map_values(|r: Release| r@)
}

fn lists(files: &Vec<String>, key: &str) -> (r: bool)
    ensures
        r == lists_file(files@, key@),
{
    let wanted = String::from_str(key);
    let mut k: usize = 0;
    while k < files.len()
        invariant
            k <= files.len(),
            wanted@ == key@,
            forall|j: int| 0 <= j < k ==> files@[j]@ != key@,
        decreases files.len() - k,
    {
        if files[k] == wanted {
            return true;
        }
        k += 1;
    }
    false
}

/// The releases of the index of alternate builds that publish a build for
/// the target, in the index's order (newest first), each with the location
/// of that build.
pub fn unofficial_downloads(index: &Vec<IndexRecord>, target: &Target) -> (r: Vec<Release>)
    ensures
        views(r@) == alternate_listing(
            index@,
            alternate_file_spec(*target).0,
            alternate_file_spec(*target).1,
        ),
{
    let (key, archive) = alternate_file(target);
    let ghost s = index@;
    let mut out: Vec<Release> = Vec::new();
    let mut i: usize = 0;
    while i < index.len()
        invariant
            i <= index.len(),
            s == index@,
            views(out@) == alternate_listing(s.subrange(0, i as int), key@, archive@),
        decreases index.len() - i,
    {
        let rec = &index[i];
        proof {
            assert(s.subrange(0, i + 1).drop_last() =~= s.subrange(0, i as int));
            assert(s.subrange(0, i + 1).last() == s[i as int]);
        }
        if lists(&rec.files, key) {
            let mut url = String::from_str("https://unofficial-builds.nodejs.org/download/release/");
            url.append(rec.version.as_str());
            url.append("/node-");
            url.append(rec.version.as_str());
            url.append("-");
            url.append(archive);
            let entry = Release { version: rec.version.clone(), url, lts: rec.lts.is_lts() };
            out.push(entry);
            proof {
                assert(views(out@) =~= views(out@.drop_last()).push(entry@));
            }
        }
        i += 1;
    }
    proof {
        assert(s.subrange(0, s.len() as int) =~= s);
    }
    out
}

/// The cells of each row of the release table (`#tbVersions tbody tr`) of an
/// HTML document: for each `td`, its `data-label` attribute and its first
/// text node, where it has them.
pub uninterp spec fn release_table(html: Seq<char>) -> Seq<Seq<(Option<Seq<char>>, Option<Seq<char>>)>>;

/// Relies on scraper's `Html::parse_document`, `Selector::parse` on two fixed
/// selectors, `ElementRef::select`, `attr` and `text`: the cells depend on
/// the document's text alone.
#[verifier::external_body]
fn release_table_cells(html: &str) -> (r: Vec<Vec<(Option<String>, Option<String>)>>)
    ensures
        r.deep_view() == release_table(html@),
{
    let document = scraper::Html::parse_document(html);
    let rows = scraper::Selector::parse("#tbVersions tbody tr").unwrap();
    let cells = scraper::Selector::parse("td").unwrap();
    document.select(&rows).map(|row| {
        row.select(&cells).map(|td| {
            (td.attr("data-label").map(|l| l.to_string()), td.text().next().map(|t| t.to_string()))
        }).collect()
    }).collect()
}

/// The value shown in a cell: its text without the `Node.js` product name
/// and surrounding white space.
pub open spec fn cell_value(text: Option<Seq<char>>) -> Seq<char> {
    let raw = match text {
        Some(t) => t,
        None => ""@,
    };
    trimmed(replaced(raw, "Node.js"@, ""@))
}

/// The value of the last cell of a row whose trimmed label is `label`.
pub open spec fn labelled(row: Seq<(Option<Seq<char>>, Option<Seq<char>>)>, label: Seq<char>) -> Option<
    Seq<char>,
>
    decreases row.len(),
{
    if row.len() == 0 {
        None
    } else if row.last().0 matches Some(l) && trimmed(l) == label {
        Some(cell_value(row.last().1))
    } else {
        labelled(row.drop_last(), label)
    }
}

/// Location of an official release: `<base>/v<version>/node-v<version>-<file>`.
pub open spec fn official_url(version: Seq<char>, file: Seq<char>) -> Seq<char> {
    "https://nodejs.org/download/release/v"@ + version + "/node-v"@ + version + "-"@ + file
}

/// The release that a table row gives, if it has a version cell.
pub open spec fn row_entry(row: Seq<(Option<Seq<char>>, Option<Seq<char>>)>, file: Seq<char>) -> Option<
    (Seq<char>, Seq<char>, bool),
> {
    match labelled(row, "Version"@) {
        Some(v) => Some(
            (v, official_url(v, file), labelled(row, "LTS"@) matches Some(l) && l.len() > 0),
        ),
        None => None,
    }
}

/// The releases of the table's rows that have a version cell, in the
/// table's order.
pub open spec fn official_listing(
    rows: Seq<Seq<(Option<Seq<char>>, Option<Seq<char>>)>>,
    file: Seq<char>,
) -> Seq<(Seq<char>, Seq<char>, bool)>
    decreases rows.len(),
{
    if rows.len() == 0 {
        Seq::empty()
    } else {
        let prev = official_listing(rows.drop_last(), file);
        match row_entry(rows.last(), file) {
            Some(e) => prev.push(e),
            None => prev,
        }
    }
}

fn labelled_value(row: &Vec<(Option<String>, Option<String>)>, label: &str) -> (r: Option<String>)
    ensures
        r.deep_view() == labelled(row.deep_view(), label@),
{
    let ghost s = row.deep_view();
    let wanted = String::from_str(label);
    let mut i: usize = row.len();
    proof {
        assert(s.subrange(0, i as int) =~= s);
    }
    while i > 0
        invariant
            i <= row.len(),
            s == row.deep_view(),
            wanted@ == label@,
            labelled(s, label@) == labelled(s.subrange(0, i as int), label@),
        decreases i,
    {
        i -= 1;
        let cell = &row[i];
        proof {
            let p = s.subrange(0, i + 1);
            assert(p.drop_last() =~= s.subrange(0, i as int));
            assert(p.last() == s[i as int]);
            assert(s[i as int] == (cell.0.deep_view(), cell.1.deep_view()));
        }
        if let Some(l) = &cell.0 {
            let name = trim_text(l.as_str());
            if name == wanted {
                let raw: &str = match &cell.1 {
                    Some(t) => t.as_str(),
                    None => "",
                };
                let shown = replace_text(raw, "Node.js", "");
                return Some(trim_text(shown.as_str()));
            }
        }
    }
    proof {
        assert(s.subrange(0, 0) =~= Seq::<(Option<Seq<char>>, Option<Seq<char>>)>::empty());
    }
    None
}

fn row_release(row: &Vec<(Option<String>, Option<String>)>, file: &str) -> (r: Option<Release>)
    ensures
        match r {
            Some(x) => row_entry(row.deep_view(), file@) == Some(x@),
            None => row_entry(row.deep_view(), file@) is None,
        },
{
    match labelled_value(row, "Version") {
        Some(version) => {
            let lts = match labelled_value(row, "LTS") {
                Some(l) => l.as_str().unicode_len() > 0,
                None => false,
            };
            let mut url = String::from_str("https://nodejs.org/download/release/v");
            url.append(version.as_str());
            url.append("/node-v");
            url.append(version.as_str());
            url.append("-");
            url.append(file);
            Some(Release { version, url, lts })
        },
        None => None,
    }
}

/// The releases of the official listing: one for each row of the release
/// table that has a version cell, in the table's order (newest first), each
/// with the location of the target's archive.
pub fn official_downloads(html: &str, target: &Target) -> (r: Vec<Release>)
    ensures
        views(r@) == official_listing(release_table(html@), official_file_spec(*target)),
{
    let file = official_file(target);
    let rows = release_table_cells(html);
    let ghost s = rows.deep_view();
    let mut out: Vec<Release> = Vec::new();
    let mut i: usize = 0;
    while i < rows.len()
        invariant
            i <= rows.len(),
            s == rows.deep_view(),
            views(out@) == official_listing(s.subrange(0, i as int), file@),
        decreases rows.len() - i,
    {
        proof {
            assert(s.subrange(0, i + 1).drop_last() =~= s.subrange(0, i as int));
            assert(s.subrange(0, i + 1).last() == s[i as int]);
            assert(s[i as int] == rows@[i as int].deep_view());
        }
        match row_release(&rows[i], file) {
            Some(entry) => {
                out.push(entry);
                proof {
                    assert(views(out@) =~= views(out@.drop_last()).push(entry@));
                }
            },
            None => {},
        }
        i += 1;
    }
    proof {
        assert(s.subrange(0, s.len() as int) =~= s);
    }
    out
}

/// Whether index `i` holds the first release of the listing that the
/// constraint admits.
pub open spec fn is_first_admitted(
    s: Seq<(Seq<char>, Seq<char>, bool)>,
    c: Option<Seq<char>>,
    i: int,
) -> bool {
    &&& 0 <= i < s.len()
    &&& admits_version(c, s[i].0)
    &&& forall|j: int| 0 <= j < i ==> !admits_version(c, #[trigger] s[j].0)
}

/// The first release of the listing that the constraint admits, if any.
pub open spec fn release_choice(s: Seq<(Seq<char>, Seq<char>, bool)>, c: Option<Seq<char>>) -> Option<
    (Seq<char>, Seq<char>, bool),
> {
    if exists|i: int| is_first_admitted(s, c, i) {
        Some(s[choose|i: int| is_first_admitted(s, c, i)])
    } else {
        None
    }
}

/// What a selection from listing `s` under constraint `c` returns: the
/// release chosen, or `UnsupportedTarget` where none is admitted.
pub open spec fn release_outcome(
    s: Seq<(Seq<char>, Seq<char>, bool)>,
    c: Option<Seq<char>>,
    r: Result<Release, ResolveError>,
) -> bool {
    match r {
        Ok(x) => release_choice(s, c) == Some(x@),
        Err(e) => release_choice(s, c) is None && e is UnsupportedTarget,
    }
}

proof fn lemma_release_choice_at(s: Seq<(Seq<char>, Seq<char>, bool)>, c: Option<Seq<char>>, i: int)
    requires
        is_first_admitted(s, c, i),
    ensures
        release_choice(s, c) == Some(s[i]),
{
    let k = choose|k: int| is_first_admitted(s, c, k);
    if i < k {
        assert(!admits_version(c, s[i].0));
    } else if k < i {
        assert(!admits_version(c, s[k].0));
    }
}

/// First admitted wins: where the listing is ordered newest first, the
/// release chosen is the newest that the constraint admits; without a
/// constraint it is the first of the listing.
pub proof fn lemma_first_admitted_wins(
    s: Seq<(Seq<char>, Seq<char>, bool)>,
    c: Option<Seq<char>>,
    i: int,
)
    requires
        0 <= i < s.len(),
        admits_version(c, s[i].0),
        forall|j: int| 0 <= j < i ==> !admits_version(c, #[trigger] s[j].0),
    ensures
        release_choice(s, c) == Some(s[i]),
        s.len() > 0 ==> release_choice(s, None) == Some(s[0]),
{
    lemma_release_choice_at(s, c, i);
    lemma_release_choice_at(s, None, 0);
}

/// Selection never returns a release that the constraint rejects, nor one
/// outside the listing.
pub proof fn lemma_choice_admitted(s: Seq<(Seq<char>, Seq<char>, bool)>, c: Option<Seq<char>>)
    ensures
        release_choice(s, c) matches Some(x) ==> (s.contains(x) && admits_version(c, x.0)),
        release_choice(s, c) is None <==> forall|i: int|
            0 <= i < s.len() ==> !admits_version(c, #[trigger] s[i].0),
{
    if exists|i: int| is_first_admitted(s, c, i) {
        let k = choose|k: int| is_first_admitted(s, c, k);
        assert(s[k] == release_choice(s, c).unwrap());
    }
    if !(forall|i: int| 0 <= i < s.len() ==> !admits_version(c, #[trigger] s[i].0)) {
        let i = choose|i: int| 0 <= i < s.len() && admits_version(c, #[trigger] s[i].0);
        lemma_least_admitted(s, c, i);
    }
}

proof fn lemma_least_admitted(s: Seq<(Seq<char>, Seq<char>, bool)>, c: Option<Seq<char>>, i: int)
    requires
        0 <= i < s.len(),
        admits_version(c, s[i].0),
    ensures
        exists|k: int| is_first_admitted(s, c, k),
    decreases i,
{
    if forall|j: int| 0 <= j < i ==> !admits_version(c, #[trigger] s[j].0) {
        assert(is_first_admitted(s, c, i));
    } else {
        let j = choose|j: int| 0 <= j < i && admits_version(c, #[trigger] s[j].0);
        lemma_least_admitted(s, c, j);
    }
}

/// Resolution is deterministic: two selections from the same listing under
/// the same constraint give the same result.
pub proof fn lemma_release_deterministic(
    s: Seq<(Seq<char>, Seq<char>, bool)>,
    c: Option<Seq<char>>,
    r1: Result<Release, ResolveError>,
    r2: Result<Release, ResolveError>,
)
    requires
        release_outcome(s, c, r1),
        release_outcome(s, c, r2),
    ensures
        r1 is Ok <==> r2 is Ok,
        r1 matches Ok(a) ==> (r2 matches Ok(b) && a@ == b@),
        r1 matches Err(e1) ==> (r2 matches Err(e2) && e1 == e2),
{
}

/// Picks, in listing order, the first release that the constraint admits
/// (the newest admitted one, as listings run newest first); without a
/// constraint the first release. `UnsupportedTarget` where none is admitted.
pub fn select_release(listing: &Vec<Release>, constraint: &Option<VersionConstraint>) -> (r: Result<
    Release,
    ResolveError,
>)
    ensures
        release_outcome(views(listing@), constraint_text(*constraint), r),
{
    let ghost s = views(listing@);
    let ghost c = constraint_text(*constraint);
    let mut i: usize = 0;
    while i < listing.len()
        invariant
            i <= listing.len(),
            s == views(listing@),
            c == constraint_text(*constraint),
            forall|j: int| 0 <= j < i ==> !admits_version(c, #[trigger] s[j].0),
        decreases listing.len() - i,
    {
        let rel = &listing[i];
        assert(s[i as int] == rel@);
        if satisfies(constraint, rel.version.as_str()) {
            proof {
                lemma_release_choice_at(s, c, i as int);
            }
            return Ok(Release { version: rel.version.clone(), url: rel.url.clone(), lts: rel.lts });
        }
        i += 1;
    }
    Err(ResolveError::UnsupportedTarget)
}

/// Resolves a release from the official release table for the target.
pub fn resolve_official(html: &str, target: &Target, constraint: &Option<VersionConstraint>) -> (r:
    Result<Release, ResolveError>)
    ensures
        release_outcome(
            official_listing(release_table(html@), official_file_spec(*target)),
            constraint_text(*constraint),
            r,
        ),
{
    let listing = official_downloads(html, target);
    select_release(&listing, constraint)
}

/// Resolves a release from the index of alternate builds for the target.
pub fn resolve_unofficial(
    index: &Vec<IndexRecord>,
    target: &Target,
    constraint: &Option<VersionConstraint>,
) -> (r: Result<Release, ResolveError>)
    ensures
        release_outcome(
            alternate_listing(
                index@,
                alternate_file_spec(*target).0,
                alternate_file_spec(*target).1,
            ),
            constraint_text(*constraint),
            r,
        ),
{
    let listing = unofficial_downloads(index, target);
    select_release(&listing, constraint)
}

/// An index in which no record lists the target's build yields no release,
/// so resolution from it fails with `UnsupportedTarget`.
pub proof fn lemma_unlisted_build_unsupported(
    s: Seq<IndexRecord>,
    key: Seq<char>,
    archive: Seq<char>,
    c: Option<Seq<char>>,
)
    requires
        forall|i: int| 0 <= i < s.len() ==> !lists_file(#[trigger] s[i].files@, key),
    ensures
        alternate_listing(s, key, archive).len() == 0,
        release_choice(alternate_listing(s, key, archive), c) is None,
    decreases s.len(),
{
    if s.len() > 0 {
        let p = s.drop_last();
        assert forall|i: int| 0 <= i < p.len() implies !lists_file(#[trigger] p[i].files@, key) by {
            assert(p[i] == s[i]);
        }
        lemma_unlisted_build_unsupported(p, key, archive, c);
        assert(!lists_file(s[s.len() - 1].files@, key));
    }
}

/// The Node.js runtime, serving one of its commands (`node`, `npm`, `npx`).
pub struct Node {
    pub cmd: String,
}

/// Path of a command's executable inside an unpacked release.
pub open spec fn command_path(os: Os, cmd: Seq<char>) -> Seq<char> {
    if os == Os::Windows {
        if cmd == "node"@ {
            "node.exe"@
        } else if cmd == "npm"@ {
            "npm.cmd"@
        } else {
            "npx.cmd"@
        }
    } else {
        if cmd == "node"@ {
            "bin/node"@
        } else if cmd == "npm"@ {
            "bin/npm"@
        } else {
            "bin/npx"@
        }
    }
}

impl Node {
    /// Path of this command's executable inside an unpacked release; one
    /// release serves all three commands.
    pub fn get_bin(&self, target: &Target) -> (r: &'static str)
        ensures
            r@ == command_path(target.os, self.cmd@),
    {
        let node = self.cmd == String::from_str("node");
        let npm = self.cmd == String::from_str("npm");
        match target.os {
            Os::Windows => if node {
                "node.exe"
            } else if npm {
                "npm.cmd"
            } else {
                "npx.cmd"
            },
            _ => if node {
                "bin/node"
            } else if npm {
                "bin/npm"
            } else {
                "bin/npx"
            },
        }
    }

    /// The version constraint of the project, from the manifest's engine
    /// range (`engine`, where the manifest declares engines) or else from
    /// the dotfile's content.
    pub fn get_version_req(&self, engine: Option<&str>, dotfile: Option<&str>) -> (r: Option<
        VersionConstraint,
    >)
        ensures
            constraint_text(r) == project_constraint(
                match engine {
                    Some(e) => Some(e@),
                    None => None,
                },
                match dotfile {
                    Some(d) => Some(d@),
                    None => None,
                },
            ),
    {
        resolve_constraint(engine, dotfile)
    }

    /// Name of the cache directory of this runtime.
    pub fn get_name(&self) -> (r: &'static str)
        ensures
            r@ == "node"@,
    {
        "node"
    }
}

} // verus!
