use vstd::prelude::*;

verus! {

#[verifier::external_type_specification]
#[verifier::external_body]
pub struct ExGitignore(ignore::gitignore::Gitignore);

/// What one compiled matcher says about one path.
#[derive(Debug, Copy, Clone, PartialEq, Eq, Structural)]
pub enum MatchClass {
    NotMatched,
    Excluded,
    Reincluded,
}

/// The directory a compiled matcher is rooted at.
pub uninterp spec fn gitignore_root(g: ignore::gitignore::Gitignore) -> Seq<char>;

/// The pattern lines a compiled matcher holds, in the order they were given.
pub uninterp spec fn gitignore_lines(g: ignore::gitignore::Gitignore) -> Seq<Seq<char>>;

/// What standard ignore-file matching says about a path: a function of the
/// matcher's root, its pattern lines, the path, and whether it names a
/// directory, and of nothing else.
pub uninterp spec fn ignore_verdict(
    root: Seq<char>,
    lines: Seq<Seq<char>>,
    path: Seq<char>,
    is_dir: bool,
) -> MatchClass;

/// Whether every one of the given ignore-file lines is a valid glob, so that
/// a matcher compiles from them: a function of the lines alone.
pub uninterp spec fn globs_compile(lines: Seq<Seq<char>>) -> bool;

/// Relies on ignore::gitignore::GitignoreBuilder (new, add_line, build): the
/// compiled matcher holds exactly the given pattern lines, matched relative
/// to `root`; whether the lines compile depends on the lines alone, and
/// nothing comes back exactly when some line is not a valid glob.
#[verifier::external_body]
fn compile_gitignore(root: &str, lines: &Vec<String>) -> (r: Option<
    ignore::gitignore::Gitignore,
>)
    ensures
        (r is Some) == globs_compile(lines.deep_view()),
        r matches Some(g) ==> gitignore_root(g) == root@ && gitignore_lines(g)
            == lines.deep_view(),
{
    let mut builder = ignore::gitignore::GitignoreBuilder::new(root);
    for line in lines.iter() {
        if builder.add_line(None, line).is_err() {
            return None;
        }
    }
    builder.build().ok()
}

/// Relies on ignore::gitignore::Gitignore::matched: whether a path matches an
/// ignore pattern, or a negated (re-including) one, depends on the matcher's
/// root, its pattern lines, the path and whether it is a directory alone.
#[verifier::external_body]
fn gitignore_matched(g: &ignore::gitignore::Gitignore, path: &str, is_dir: bool) -> (r: MatchClass)
    ensures
        r == ignore_verdict(gitignore_root(*g), gitignore_lines(*g), path@, is_dir),
{
    match g.matched(path, is_dir) {
        ignore::Match::None => MatchClass::NotMatched,
        ignore::Match::Ignore(_) => MatchClass::Excluded,
        ignore::Match::Whitelist(_) => MatchClass::Reincluded,
    }
}

/// The model of one directory level: the root and the pattern lines of its
/// ignore file, or nothing where the directory has none (or its file did not
/// compile, which must match nothing).
pub type IgnoreLevel = Option<(Seq<char>, Seq<Seq<char>>)>;

/// What one level says about a path.
pub open spec fn level_verdict(level: IgnoreLevel, path: Seq<char>, is_dir: bool) -> MatchClass {
    match level {
        None => MatchClass::NotMatched,
        Some(rl) => ignore_verdict(rl.0, rl.1, path, is_dir),
    }
}

/// What a stack of levels, shallowest first, says about a path: the deepest
/// level with a verdict wins, so a directory's own ignore file overrides
/// every ancestor's.
pub open spec fn stack_verdict(levels: Seq<IgnoreLevel>, path: Seq<char>, is_dir: bool) -> MatchClass
    decreases levels.len(),
{
    if levels.len() == 0 {
        MatchClass::NotMatched
    } else {
        let v = level_verdict(levels.last(), path, is_dir);
        if v != MatchClass::NotMatched {
            v
        } else {
            stack_verdict(levels.drop_last(), path, is_dir)
        }
    }
}

/// Whether a path is excluded: the directory stack decides first; only when
/// no directory level matches does the global extra ignore file speak.
pub open spec fn spec_excluded(
    levels: Seq<IgnoreLevel>,
    extra: IgnoreLevel,
    path: Seq<char>,
    is_dir: bool,
) -> bool {
    match stack_verdict(levels, path, is_dir) {
        MatchClass::Excluded => true,
        MatchClass::Reincluded => false,
        MatchClass::NotMatched => level_verdict(extra, path, is_dir) == MatchClass::Excluded,
    }
}

pub open spec fn level_model(g: Option<ignore::gitignore::Gitignore>) -> IgnoreLevel {
    match g {
        None => None,
        Some(m) => Some((gitignore_root(m), gitignore_lines(m))),
    }
}

/// The exclusion rules in force during one traversal: one optional matcher
/// per directory on the current descent path, deepest last, plus the one
/// optional extra ignore file that applies everywhere.
pub struct IgnoreSet {
    extra: Option<ignore::gitignore::Gitignore>,
    stack: Vec<Option<ignore::gitignore::Gitignore>>,
}

impl IgnoreSet {
    /// The models of the directory levels, shallowest first.
    pub closed spec fn levels(&self) -> Seq<IgnoreLevel> {
        self.stack@.map_values(|g: Option<ignore::gitignore::Gitignore>| level_model(g))
    }

    /// The model of the extra ignore file, if one was given.
    pub closed spec fn extra_level(&self) -> IgnoreLevel {
        level_model(self.extra)
    }

    /// An empty rule set: no directory levels, no extra file.
    pub fn new() -> (r: Self)
        ensures
            r.levels().len() == 0,
            r.extra_level() is None,
    {
        let r = IgnoreSet { extra: None, stack: Vec::new() };
        proof {
            assert(r.levels() =~= Seq::<IgnoreLevel>::empty());
        }
        r
    }

    /// Installs the extra ignore file, given as its pattern lines and the
    /// directory they are matched relative to. False exactly when some line
    /// is not a valid glob; the rule set is then unchanged.
    pub fn set_extra(&mut self, root: &str, lines: &Vec<String>) -> (ok: bool)
        ensures
            ok == globs_compile(lines.deep_view()),
            final(self).levels() == old(self).levels(),
            ok ==> final(self).extra_level() == Some((root@, lines.deep_view())),
            !ok ==> final(self).extra_level() == old(self).extra_level(),
    {
        match compile_gitignore(root, lines) {
            Some(m) => {
                self.extra = Some(m);
                true
            },
            None => false,
        }
    }

    /// Enters a directory that has an ignore file, given as its pattern
    /// lines. False exactly when the file does not compile; the level then
    /// matches nothing, and the walk goes on.
    pub fn push_dir(&mut self, root: &str, lines: &Vec<String>) -> (ok: bool)
        ensures
            ok == globs_compile(lines.deep_view()),
            final(self).extra_level() == old(self).extra_level(),
            ok ==> final(self).levels() =~= old(self).levels().push(
                Some((root@, lines.deep_view())),
            ),
            !ok ==> final(self).levels() =~= old(self).levels().push(None),
    {
        match compile_gitignore(root, lines) {
            Some(m) => {
                self.stack.push(Some(m));
                proof {
                    assert(self.levels() =~= old(self).levels().push(
                        Some((root@, lines.deep_view())),
                    ));
                }
                true
            },
            None => {
                self.stack.push(None);
                proof {
                    assert(self.levels() =~= old(self).levels().push(None));
                }
                false
            },
        }
    }

    /// Enters a directory that has no ignore file of its own.
    pub fn push_dir_without_file(&mut self)
        ensures
            final(self).extra_level() == old(self).extra_level(),
            final(self).levels() =~= old(self).levels().push(None),
    {
        self.stack.push(None);
        proof {
            assert(self.levels() =~= old(self).levels().push(None));
        }
    }

    /// Leaves the deepest directory: its rules stop applying.
    pub fn pop_dir(&mut self)
        requires
            old(self).levels().len() > 0,
        ensures
            final(self).extra_level() == old(self).extra_level(),
            final(self).levels() =~= old(self).levels().drop_last(),
    {
        let _ = self.stack.pop();
        proof {
            assert(self.levels() =~= old(self).levels().drop_last());
        }
    }

    /// Whether the rules in force exclude this path: the deepest directory
    /// level with a verdict decides, and the extra file only where none does.
    pub fn excluded(&self, path: &str, is_dir: bool) -> (r: bool)
        ensures
            r == spec_excluded(self.levels(), self.extra_level(), path@, is_dir),
    {
        let ghost ls = self.levels();
        let mut i: usize = self.stack.len();
        proof {
            assert(ls.take(i as int) =~= ls);
        }
        while i > 0
            invariant
                i <= self.stack@.len(),
                ls == self.levels(),
                ls.len() == self.stack@.len(),
                stack_verdict(ls, path@, is_dir) == stack_verdict(ls.take(i as int), path@, is_dir),
            decreases i,
        {
            proof {
                assert(ls.take(i as int).last() == ls[i - 1]);
                assert(ls.take(i as int).drop_last() =~= ls.take(i - 1));
            }
            match &self.stack[i - 1] {
                Some(g) => {
                    let v = gitignore_matched(g, path, is_dir);
                    if v == MatchClass::Excluded {
                        return true;
                    }
                    if v == MatchClass::Reincluded {
                        return false;
                    }
                },
                None => {},
            }
            i -= 1;
        }
        match &self.extra {
            Some(g) => {
                let v = gitignore_matched(g, path, is_dir);
                v == MatchClass::Excluded
            },
            None => false,
        }
    }
}

} // verus!
