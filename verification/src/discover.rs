//! Choosing, among the entries found under a root, the source files that a
//! run looks at.

use crate::text::{replace_char, replaced};
use vstd::prelude::*;
use vstd::string::StringExecFns;

verus! {

/// One compiled glob pattern of the `globset` crate.
#[verifier::external_type_specification]
#[verifier::external_body]
pub struct ExGlob(globset::Glob);

/// A set of compiled glob patterns of the `globset` crate.
#[verifier::external_type_specification]
#[verifier::external_body]
pub struct ExGlobSet(globset::GlobSet);

/// The builder of a set of glob patterns of the `globset` crate.
#[verifier::external_type_specification]
#[verifier::external_body]
pub struct ExGlobSetBuilder(globset::GlobSetBuilder);

/// The error of the `globset` crate.
#[verifier::external_type_specification]
#[verifier::external_body]
pub struct ExGlobError(globset::Error);

/// The pattern that a compiled glob was made from.
pub uninterp spec fn glob_pattern(glob: globset::Glob) -> Seq<char>;

/// Whether a compiled glob was made with the options that `globset` starts
/// from.
pub uninterp spec fn glob_is_default(glob: globset::Glob) -> bool;

/// The patterns that were added to a builder, in the order in which they were
/// added.
pub uninterp spec fn builder_patterns(builder: globset::GlobSetBuilder) -> Seq<Seq<char>>;

/// Whether every glob of a builder was made with the options that `globset`
/// starts from.
pub uninterp spec fn builder_is_default(builder: globset::GlobSetBuilder) -> bool;

/// The patterns that a set was built from, in their order.
pub uninterp spec fn set_patterns(set: globset::GlobSet) -> Seq<Seq<char>>;

/// Whether every glob that a set was built from was made with the options
/// that `globset` starts from.
pub uninterp spec fn set_is_default(set: globset::GlobSet) -> bool;

/// Whether `globset` takes a pattern as well formed, with the options it
/// starts from.
pub uninterp spec fn pattern_parses(pattern: Seq<char>) -> bool;

/// Whether `globset` compiles these well-formed patterns into one matcher.
pub uninterp spec fn patterns_compile(patterns: Seq<Seq<char>>) -> bool;

/// Whether one of these patterns matches a path, as `globset` matches with
/// the options it starts from.
pub uninterp spec fn patterns_match(patterns: Seq<Seq<char>>, path: Seq<char>) -> bool;

/// Whether a pattern or a path means the same on every machine: it holds no
/// `\`, which is read as a separator of path parts on some machines and as an
/// escape on the others.
pub open spec fn is_portable(text: Seq<char>) -> bool {
    forall|i: int| 0 <= i < text.len() ==> text[i] != '\\'
}

/// Whether every pattern of a list means the same on every machine.
pub open spec fn all_portable(patterns: Seq<Seq<char>>) -> bool {
    forall|i: int| 0 <= i < patterns.len() ==> is_portable(#[trigger] patterns[i])
}

/// Calls `globset::Glob::new`, which parses a pattern with the options that
/// `globset` starts from, and fails on one that is malformed. The glob that
/// comes back keeps the pattern it was made from. Whether a pattern without
/// `\` is well formed depends on the pattern alone, and has a name; of a
/// pattern with `\` nothing is claimed, as its reading differs by machine.
#[verifier::external_body]
fn glob_new(pattern: &str) -> (glob: Result<globset::Glob, globset::Error>)
    ensures
        glob matches Ok(made) ==> glob_pattern(made) == pattern@ && glob_is_default(made),
        is_portable(pattern@) ==> (glob is Ok <==> pattern_parses(pattern@)),
{
    globset::Glob::new(pattern)
}

/// Calls `globset::GlobSetBuilder::new`, which gives a builder without
/// patterns.
#[verifier::external_body]
fn builder_new() -> (builder: globset::GlobSetBuilder)
    ensures
        builder_patterns(builder) == Seq::<Seq<char>>::empty(),
        builder_is_default(builder),
{
    globset::GlobSetBuilder::new()
}

/// Calls `globset::GlobSetBuilder::add`, which puts a glob behind those that
/// the builder holds.
#[verifier::external_body]
fn builder_add(builder: &mut globset::GlobSetBuilder, glob: globset::Glob)
    ensures
        builder_patterns(*final(builder)) == builder_patterns(*old(builder)).push(
            glob_pattern(glob),
        ),
        builder_is_default(*final(builder)) == (builder_is_default(*old(builder))
            && glob_is_default(glob)),
{
    builder.add(glob);
}

/// Calls `globset::GlobSetBuilder::build`, which compiles the globs of the
/// builder into one matcher. A set that comes back is built from just those
/// globs, and a builder without globs always gives a set. Whether globs that
/// were made from patterns without `\`, with the options that `globset`
/// starts from, compile depends on the patterns alone, and has a name.
#[verifier::external_body]
fn builder_build(builder: &globset::GlobSetBuilder) -> (set: Result<
    globset::GlobSet,
    globset::Error,
>)
    ensures
        set matches Ok(built) ==> set_patterns(built) == builder_patterns(*builder)
            && set_is_default(built) == builder_is_default(*builder),
        builder_patterns(*builder).len() == 0 ==> set is Ok,
        builder_is_default(*builder) && all_portable(builder_patterns(*builder)) ==> (set is Ok
            <==> patterns_compile(builder_patterns(*builder))),
{
    builder.build()
}

/// Calls `globset::GlobSet::is_match`, which says whether any glob of the set
/// matches the path. A set built from no glob matches nothing. Whether a set
/// of globs that were made from patterns without `\`, with the options that
/// `globset` starts from, matches a path without `\` depends on the patterns
/// and the path alone, and has a name.
#[verifier::external_body]
fn set_is_match(set: &globset::GlobSet, path: &str) -> (matched: bool)
    ensures
        set_patterns(*set).len() == 0 ==> !matched,
        set_is_default(*set) && all_portable(set_patterns(*set)) && is_portable(path@)
            ==> matched == patterns_match(set_patterns(*set), path@),
{
    set.is_match(path)
}

/// One entry found under a root.
#[derive(Debug, PartialEq, Eq)]
pub struct FoundEntry {
    /// The entry's path.
    pub path: String,
    /// The entry's path relative to the root.
    pub rel: String,
    /// Whether the entry is a file.
    pub is_file: bool,
    /// The extension of the entry's name, if it has one.
    pub extension: Option<String>,
}

/// The value of a [`FoundEntry`].
pub struct FoundEntryView {
    pub path: Seq<char>,
    pub rel: Seq<char>,
    pub is_file: bool,
    pub extension: Option<Seq<char>>,
}

impl DeepView for FoundEntry {
    type V = FoundEntryView;

    open spec fn deep_view(&self) -> FoundEntryView {
        FoundEntryView {
            path: self.path@,
            rel: self.rel@,
            is_file: self.is_file,
            extension: self.extension.deep_view(),
        }
    }
}

impl View for FoundEntry {
    type V = FoundEntryView;

    open spec fn view(&self) -> FoundEntryView {
        self.deep_view()
    }
}

/// Why the files could not be chosen.
#[derive(Debug, PartialEq, Eq)]
pub enum DiscoverError {
    /// This pattern is malformed.
    BadPattern(String),
    /// The patterns could not be compiled into one matcher.
    BadSet,
}

/// The value of a [`DiscoverError`].
pub enum DiscoverErrorView {
    BadPattern(Seq<char>),
    BadSet,
}

impl DeepView for DiscoverError {
    type V = DiscoverErrorView;

    open spec fn deep_view(&self) -> DiscoverErrorView {
        match self {
            DiscoverError::BadPattern(pattern) => DiscoverErrorView::BadPattern(pattern@),
            DiscoverError::BadSet => DiscoverErrorView::BadSet,
        }
    }
}

impl View for DiscoverError {
    type V = DiscoverErrorView;

    open spec fn view(&self) -> DiscoverErrorView {
        self.deep_view()
    }
}

/// The index of the first pattern from `from` on that is malformed; the
/// number of patterns if there is none.
pub open spec fn first_malformed(patterns: Seq<Seq<char>>, from: int) -> int
    decreases patterns.len() - from,
{
    if from >= patterns.len() {
        patterns.len() as int
    } else if !pattern_parses(patterns[from]) {
        from
    } else {
        first_malformed(patterns, from + 1)
    }
}

/// Why these patterns give no matcher, if they give none: the first of them
/// that is malformed; or, where all are well formed, that they do not compile
/// into one matcher.
pub open spec fn set_error(patterns: Seq<Seq<char>>) -> Option<DiscoverErrorView> {
    let at = first_malformed(patterns, 0);
    if at < patterns.len() {
        Some(DiscoverErrorView::BadPattern(patterns[at]))
    } else if !patterns_compile(patterns) {
        Some(DiscoverErrorView::BadSet)
    } else {
        None
    }
}

/// Of each entry, whether one of `patterns` matches the path it is matched
/// by.
pub open spec fn matched_by(patterns: Seq<Seq<char>>, entries: Seq<FoundEntryView>) -> Seq<bool> {
    Seq::new(entries.len(), |i: int| patterns_match(patterns, match_path(entries[i].rel)))
}

/// Where the patterns before `at` are well formed, the first malformed
/// pattern is the first one from `at` on.
pub proof fn lemma_first_malformed(patterns: Seq<Seq<char>>, from: int, at: int)
    requires
        0 <= from <= at <= patterns.len(),
        forall|k: int| from <= k < at ==> pattern_parses(#[trigger] patterns[k]),
        at < patterns.len() ==> !pattern_parses(patterns[at]),
    ensures
        first_malformed(patterns, from) == at,
    decreases at - from,
{
    if from < at {
        lemma_first_malformed(patterns, from + 1, at);
    }
}

/// The path that an entry is matched by holds no `\`.
pub proof fn lemma_match_path_is_portable(rel: Seq<char>)
    ensures
        is_portable(match_path(rel)),
{
}

/// Whether an entry is a source file: a file with the extension `rs`.
pub open spec fn is_source_file(entry: FoundEntryView) -> bool {
    entry.is_file && entry.extension == Some("rs"@)
}

/// Whether a source file is looked at: it is matched by the patterns to look
/// at and by none of those to leave out.
pub open spec fn is_kept(included: bool, excluded: bool) -> bool {
    included && !excluded
}

/// The patterns of the files to look at: those given, or every path where
/// none is given.
pub open spec fn patterns_or_all(given: Seq<Seq<char>>) -> Seq<Seq<char>> {
    if given.len() == 0 {
        seq!["**/*"@]
    } else {
        given
    }
}

/// The path that the patterns are matched against: the path relative to the
/// root, written with `/` between its parts.
pub open spec fn match_path(rel: Seq<char>) -> Seq<char> {
    replaced(rel, '\\', '/')
}

/// The paths of the entries that are chosen, in their order, where `looked`
/// says of each entry whether a pattern to look at matches it, and `left`
/// whether a pattern to leave out does. An entry is chosen if it is a source
/// file that is looked at and not left out.
pub open spec fn chosen(entries: Seq<FoundEntryView>, looked: Seq<bool>, left: Seq<bool>) -> Seq<
    Seq<char>,
>
    decreases entries.len(),
{
    if entries.len() == 0 || looked.len() != entries.len() || left.len() != entries.len() {
        Seq::empty()
    } else if is_source_file(entries.last()) && is_kept(looked.last(), left.last()) {
        chosen(entries.drop_last(), looked.drop_last(), left.drop_last()).push(
            entries.last().path,
        )
    } else {
        chosen(entries.drop_last(), looked.drop_last(), left.drop_last())
    }
}

/// Chooses source files among the entries found under a root.
pub struct Discover;

impl Discover {
    /// The patterns of the files to look at: those given, or every path where
    /// none is given.
    pub fn patterns_or_all(given: &Vec<String>) -> (patterns: Vec<String>)
        ensures
            patterns.deep_view() == patterns_or_all(given.deep_view()),
    {
        if given.is_empty() {
            let mut all: Vec<String> = Vec::new();
            all.push(String::from_str("**/*"));
            assert(all.deep_view() =~= seq!["**/*"@]);
            all
        } else {
            crate::syntax::clone_texts(given)
        }
    }

    /// Whether an entry is among the files to look at, where `included` says
    /// that a pattern to look at matches it, and `excluded` that a pattern
    /// to leave out does. Leaving out wins.
    pub fn keeps(entry: &FoundEntry, included: bool, excluded: bool) -> (kept: bool)
        ensures
            kept == (is_source_file(entry@) && is_kept(included, excluded)),
    {
        if !entry.is_file {
            return false;
        }
        let rust = match &entry.extension {
            Some(extension) => *extension == String::from_str("rs"),
            None => false,
        };
        rust && included && !excluded
    }

    /// Compiles patterns into one matcher. A matcher that comes back is built
    /// from just these patterns, in their order; no pattern always gives a
    /// matcher; and a pattern that is reported as malformed is one of them.
    /// For patterns without `\`, the outcome is the one that `globset` gives
    /// to these patterns on every machine: a matcher if all are well formed
    /// and compile, the first malformed pattern otherwise.
    fn globset(patterns: &Vec<String>) -> (set: Result<globset::GlobSet, DiscoverError>)
        ensures
            set matches Ok(built) ==> set_patterns(built) == patterns.deep_view()
                && set_is_default(built),
            set matches Err(DiscoverError::BadPattern(pattern)) ==> patterns.deep_view().contains(
                pattern@,
            ),
            patterns.deep_view().len() == 0 ==> set is Ok,
            all_portable(patterns.deep_view()) ==> match set {
                Ok(_) => set_error(patterns.deep_view()) is None,
                Err(error) => set_error(patterns.deep_view()) == Some(error@),
            },
    {
        let ghost given = patterns.deep_view();
        let mut builder = builder_new();
        let count: usize = patterns.len();
        let mut i: usize = 0;
        assert(given.take(0) =~= Seq::<Seq<char>>::empty());
        while i < count
            invariant
                count == patterns.len(),
                given == patterns.deep_view(),
                i <= count,
                builder_patterns(builder) == given.take(i as int),
                builder_is_default(builder),
                all_portable(given) ==> forall|k: int|
                    0 <= k < i ==> pattern_parses(#[trigger] given[k]),
            decreases count - i,
        {
            assert(given[i as int] == patterns@[i as int]@);
            match glob_new(patterns[i].as_str()) {
                Ok(glob) => builder_add(&mut builder, glob),
                Err(_) => {
                    proof {
                        if all_portable(given) {
                            lemma_first_malformed(given, 0, i as int);
                        }
                    }
                    return Err(DiscoverError::BadPattern(patterns[i].clone()));
                },
            }
            i = i + 1;
            assert(given.take(i as int) =~= given.take(i - 1).push(given[i - 1]));
        }
        assert(given.take(count as int) =~= given);
        proof {
            if all_portable(given) {
                lemma_first_malformed(given, 0, count as int);
            }
        }
        match builder_build(&builder) {
            Ok(set) => Ok(set),
            Err(_) => Err(DiscoverError::BadSet),
        }
    }

    /// Chooses the source files to look at among `entries`, what was found
    /// under a root. An entry is chosen if it is a file with the extension
    /// `rs` whose path relative to the root, written with `/`, is matched by
    /// one of the patterns `includes` (by `**/*` if there is none) and by none
    /// of the patterns `exclude`: leaving out wins. The chosen paths come in
    /// the order of the entries. A malformed pattern is an error: the first
    /// one of `includes`, or else the first one of `exclude`.
    ///
    /// Which patterns are well formed and what they match is up to the
    /// `globset` crate; [`pattern_parses`], [`patterns_compile`] and
    /// [`patterns_match`] name its answers. A pattern that holds `\` is read
    /// by `globset` in one way on some machines and in another on others.
    /// For such patterns the contract states what holds whichever way they
    /// are read.
    pub fn discover_rs_files(
        entries: &Vec<FoundEntry>,
        includes: &Vec<String>,
        exclude: &Vec<String>,
    ) -> (found: Result<Vec<String>, DiscoverError>)
        ensures
            all_portable(includes.deep_view()) && all_portable(exclude.deep_view()) ==> match found {
                Ok(paths) => {
                    &&& set_error(patterns_or_all(includes.deep_view())) is None
                    &&& set_error(exclude.deep_view()) is None
                    &&& paths.deep_view() == chosen(
                        entries.deep_view(),
                        matched_by(patterns_or_all(includes.deep_view()), entries.deep_view()),
                        matched_by(exclude.deep_view(), entries.deep_view()),
                    )
                },
                Err(error) => Some(error@) == if set_error(
                    patterns_or_all(includes.deep_view()),
                ) is Some {
                    set_error(patterns_or_all(includes.deep_view()))
                } else {
                    set_error(exclude.deep_view())
                },
            },
            found matches Ok(paths) ==> exists|looked: Seq<bool>, left: Seq<bool>|
                {
                    &&& looked.len() == entries.deep_view().len()
                    &&& left.len() == entries.deep_view().len()
                    &&& #[trigger] chosen(entries.deep_view(), looked, left) == paths.deep_view()
                    &&& exclude.deep_view().len() == 0 ==> forall|i: int|
                        0 <= i < left.len() ==> !left[i]
                },
            found matches Err(DiscoverError::BadPattern(pattern)) ==> patterns_or_all(
                includes.deep_view(),
            ).contains(pattern@) || exclude.deep_view().contains(pattern@),
    {
        let ghost given = entries.deep_view();
        let ghost portable = all_portable(includes.deep_view()) && all_portable(
            exclude.deep_view(),
        );
        let inc = Self::patterns_or_all(includes);
        proof {
            reveal_strlit("**/*");
            assert(is_portable("**/*"@));
            assert(all_portable(includes.deep_view()) ==> all_portable(inc.deep_view()));
        }
        let inc_set = match Self::globset(&inc) {
            Ok(set) => set,
            Err(error) => {
                return Err(error);
            },
        };
        let exc_set = match Self::globset(exclude) {
            Ok(set) => set,
            Err(error) => {
                return Err(error);
            },
        };
        let mut out: Vec<String> = Vec::new();
        let ghost mut looked: Seq<bool> = Seq::empty();
        let ghost mut left: Seq<bool> = Seq::empty();
        let count: usize = entries.len();
        let mut i: usize = 0;
        assert(given.take(0) =~= Seq::<FoundEntryView>::empty());
        assert(looked =~= matched_by(inc.deep_view(), given).take(0));
        assert(left =~= matched_by(exclude.deep_view(), given).take(0));
        while i < count
            invariant
                count == entries.len(),
                given == entries.deep_view(),
                i <= count,
                looked.len() == i,
                left.len() == i,
                set_patterns(inc_set) == inc.deep_view(),
                set_patterns(exc_set) == exclude.deep_view(),
                set_is_default(inc_set),
                set_is_default(exc_set),
                portable ==> all_portable(inc.deep_view()) && all_portable(exclude.deep_view()),
                portable ==> looked == matched_by(inc.deep_view(), given).take(i as int),
                portable ==> left == matched_by(exclude.deep_view(), given).take(i as int),
                out.deep_view() == chosen(given.take(i as int), looked, left),
                exclude.deep_view().len() == 0 ==> forall|k: int| 0 <= k < left.len() ==> !left[k],
            decreases count - i,
        {
            let entry = &entries[i];
            let rel = replace_char(entry.rel.as_str(), '\\', '/');
            proof {
                lemma_match_path_is_portable(entry@.rel);
            }
            let included = set_is_match(&inc_set, rel.as_str());
            let excluded = set_is_match(&exc_set, rel.as_str());
            let kept = Self::keeps(entry, included, excluded);
            let ghost gathered = out.deep_view();
            if kept {
                out.push(entry.path.clone());
                assert(out.deep_view() =~= gathered.push(entry@.path));
            }
            proof {
                let before = given.take(i as int);
                let now = given.take(i + 1);
                assert(now.drop_last() =~= before);
                assert(now.last() == entry@);
                assert(given[i as int] == entry@);
                assert(looked.push(included).drop_last() =~= looked);
                assert(left.push(excluded).drop_last() =~= left);
                if portable {
                    assert(looked.push(included) =~= matched_by(inc.deep_view(), given).take(
                        i + 1,
                    ));
                    assert(left.push(excluded) =~= matched_by(exclude.deep_view(), given).take(
                        i + 1,
                    ));
                }
                looked = looked.push(included);
                left = left.push(excluded);
            }
            i = i + 1;
        }
        proof {
            assert(given.take(count as int) =~= given);
            if portable {
                assert(looked =~= matched_by(inc.deep_view(), given));
                assert(left =~= matched_by(exclude.deep_view(), given));
            }
        }
        Ok(out)
    }
}

} // verus!
