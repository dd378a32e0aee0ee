//! What can be set of the tracer.

use crate::text::str_eq;
use vstd::prelude::*;

verus! {

/// When old graphs are removed.
#[derive(Debug, Clone, Copy, PartialEq, Eq, Structural)]
pub enum CleanupMode {
    /// All of them, when starting.
    Initial,
    /// Before each snapshot, in the directory that it goes to.
    Automatic,
    /// Never; the name of this mode is `none`.
    Never,
}

#[derive(Debug)]
pub struct Settings {
    pub dot_prefix: Option<String>,
    pub dot_ts: bool,
    pub dot_pipeline_ptr: bool,
    pub dot_dir: Option<String>,
    pub cleanup_mode: CleanupMode,
    pub use_folders: bool,
}

impl Default for Settings {
    fn default() -> (settings: Settings)
        ensures
            settings.dot_dir is None,
            settings.dot_prefix is Some,
            settings.dot_prefix->0@ == "pipeline-snapshot-"@,
            settings.dot_ts,
            settings.cleanup_mode == CleanupMode::Never,
            !settings.dot_pipeline_ptr,
            !settings.use_folders,
    {
        Settings {
            dot_dir: None,
            dot_prefix: Some("pipeline-snapshot-".to_owned()),
            dot_ts: true,
            cleanup_mode: CleanupMode::Never,
            dot_pipeline_ptr: false,
            use_folders: false,
        }
    }
}

/// The parameters of the tracer, as far as they were given. A text may be given as none.
#[derive(Debug)]
pub struct Params {
    pub dot_dir: Option<Option<String>>,
    pub dot_prefix: Option<Option<String>>,
    pub dot_ts: Option<bool>,
    pub dot_pipeline_ptr: Option<bool>,
    pub cleanup_mode: Option<String>,
}

/// The user has no cache directory.
#[derive(Debug, Clone, Copy, PartialEq, Eq, Structural)]
pub struct NoCacheDir;

/// Calls `dirs::cache_dir`: the directory for cached files of the user, or None where there is
/// none. The inner None is a path that is not valid Unicode. Which one it is depends on the
/// environment of the process, so nothing is claimed of it.
#[verifier::external_body]
fn cache_dir() -> (r: Option<Option<String>>) {
    dirs::cache_dir().map(|path| path.to_str().map(|path| path.to_owned()))
}

/// A directory below another one.
pub open spec fn joined(dir: Seq<char>, name: Seq<char>) -> Seq<char> {
    if dir.len() == 0 || dir.last() == '/' {
        dir + name
    } else {
        dir + "/"@ + name
    }
}

fn join(dir: String, name: &str) -> (path: String)
    ensures
        path@ == joined(dir@, name@),
{
    let len: usize = dir.as_str().unicode_len();
    let mut path = dir;
    if len > 0 && path.as_str().get_char(len - 1) != '/' {
        path.append("/");
    }
    path.append(name);
    path
}

/// The text in an option.
pub open spec fn text_in(text: Option<String>) -> Option<Seq<char>> {
    match text {
        Some(text) => Some(text@),
        None => None,
    }
}

/// The directory for graphs: the given one, or `gstreamer-dots` in the cache directory where that
/// is asked for, or else the one of the environment.
pub open spec fn dot_dir_for(
    dot_dir: Option<Seq<char>>,
    cache: Option<Seq<char>>,
    environment: Option<Seq<char>>,
) -> Option<Seq<char>> {
    match dot_dir {
        Some(dir) => if dir == "xdg-cache"@ {
            match cache {
                Some(cache) => Some(joined(cache, "gstreamer-dots"@)),
                None => None,
            }
        } else {
            Some(dir)
        },
        None => environment,
    }
}

/// Whether the cache directory is asked for.
pub open spec fn wants_cache(dot_dir: Option<String>) -> bool {
    text_in(dot_dir) == Some("xdg-cache"@)
}

/// The cleanup mode with a name; there is no cleanup where the name is unknown.
pub open spec fn cleanup_mode_named(name: Seq<char>) -> CleanupMode {
    if name == "initial"@ {
        CleanupMode::Initial
    } else if name == "automatic"@ {
        CleanupMode::Automatic
    } else {
        CleanupMode::Never
    }
}

/// The cleanup mode with a name.
pub fn cleanup_mode_from(name: &str) -> (mode: CleanupMode)
    ensures
        mode == cleanup_mode_named(name@),
{
    if str_eq(name, "initial") {
        CleanupMode::Initial
    } else if str_eq(name, "automatic") {
        CleanupMode::Automatic
    } else {
        CleanupMode::Never
    }
}

/// Settings that differ at most in the directory.
pub open spec fn same_but_dir(a: Settings, b: Settings) -> bool {
    &&& a.dot_prefix == b.dot_prefix
    &&& a.dot_ts == b.dot_ts
    &&& a.dot_pipeline_ptr == b.dot_pipeline_ptr
    &&& a.cleanup_mode == b.cleanup_mode
    &&& a.use_folders == b.use_folders
}

/// What parameters set, but for the directory.
pub open spec fn params_applied(before: Settings, params: Params, after: Settings) -> bool {
    &&& after.dot_prefix == match params.dot_prefix {
        Some(prefix) => prefix,
        None => before.dot_prefix,
    }
    &&& after.dot_ts == match params.dot_ts {
        Some(dot_ts) => dot_ts,
        None => before.dot_ts,
    }
    &&& after.dot_pipeline_ptr == match params.dot_pipeline_ptr {
        Some(dot_pipeline_ptr) => dot_pipeline_ptr,
        None => before.dot_pipeline_ptr,
    }
    &&& after.cleanup_mode == match params.cleanup_mode {
        Some(name) => cleanup_mode_named(name@),
        None => before.cleanup_mode,
    }
    &&& after.use_folders == before.use_folders
}

impl Settings {
    /// Sets the directory for graphs; `cache` is the cache directory, where it is valid Unicode,
    /// and `environment` the one that the environment gives.
    pub fn place_dots(
        &mut self,
        dot_dir: Option<String>,
        cache: Option<String>,
        environment: Option<String>,
    )
        ensures
            same_but_dir(*old(self), *final(self)),
            text_in(final(self).dot_dir) == dot_dir_for(
                text_in(dot_dir),
                text_in(cache),
                text_in(environment),
            ),
    {
        match dot_dir {
            Some(dir) => {
                if str_eq(dir.as_str(), "xdg-cache") {
                    self.dot_dir = match cache {
                        Some(cache) => Some(join(cache, "gstreamer-dots")),
                        None => None,
                    };
                } else {
                    self.dot_dir = Some(dir);
                }
            },
            None => {
                self.dot_dir = environment;
            },
        }
    }

    /// Sets the directory for graphs. Fails where the cache directory is asked for and there is
    /// none.
    pub fn set_dot_dir(&mut self, dot_dir: Option<String>, environment: Option<String>) -> (r:
        Result<(), NoCacheDir>)
        ensures
            same_but_dir(*old(self), *final(self)),
            r is Err ==> wants_cache(dot_dir) && *final(self) == *old(self),
            r is Ok ==> exists|cache: Option<Seq<char>>|
                text_in(final(self).dot_dir) == #[trigger] dot_dir_for(
                    text_in(dot_dir),
                    cache,
                    text_in(environment),
                ),
    {
        let wants_cache = match &dot_dir {
            Some(dir) => str_eq(dir.as_str(), "xdg-cache"),
            None => false,
        };
        let cache = if wants_cache {
            match cache_dir() {
                Some(cache) => cache,
                None => return Err(NoCacheDir),
            }
        } else {
            None
        };
        let ghost at = text_in(cache);
        self.place_dots(dot_dir, cache, environment);
        proof {
            assert(text_in(self.dot_dir) == dot_dir_for(text_in(dot_dir), at, text_in(environment)));
        }
        Ok(())
    }

    /// Takes parameters over. Fails where the cache directory is asked for and there is none.
    pub fn update_from_params(&mut self, params: Params, environment: Option<String>) -> (r: Result<
        (),
        NoCacheDir,
    >)
        ensures
            r is Err ==> params.dot_dir is Some && wants_cache(params.dot_dir->0) && *final(self)
                == *old(self),
            r is Ok ==> params_applied(*old(self), params, *final(self)),
            r is Ok && params.dot_dir is None ==> final(self).dot_dir == old(self).dot_dir,
            r is Ok && params.dot_dir is Some ==> exists|cache: Option<Seq<char>>|
                text_in(final(self).dot_dir) == #[trigger] dot_dir_for(
                    text_in(params.dot_dir->0),
                    cache,
                    text_in(environment),
                ),
    {
        if let Some(dot_dir) = params.dot_dir {
            if self.set_dot_dir(dot_dir, environment).is_err() {
                return Err(NoCacheDir);
            }
        }
        if let Some(dot_prefix) = params.dot_prefix {
            self.dot_prefix = dot_prefix;
        }
        if let Some(dot_ts) = params.dot_ts {
            self.dot_ts = dot_ts;
        }
        if let Some(dot_pipeline_ptr) = params.dot_pipeline_ptr {
            self.dot_pipeline_ptr = dot_pipeline_ptr;
        }
        if let Some(cleanup_mode) = params.cleanup_mode {
            self.cleanup_mode = cleanup_mode_from(cleanup_mode.as_str());
        }
        Ok(())
    }
}

/// A directory that is given is used as it is, wherever it is, unless it is the word for the cache;
/// then graphs go right below the cache directory. Without a directory that of the environment
/// counts, and nothing else ever does.
pub proof fn law_given_directories_count(
    dir: Seq<char>,
    cache: Option<Seq<char>>,
    environment: Option<Seq<char>>,
    other: Option<Seq<char>>,
)
    ensures
        dir != "xdg-cache"@ ==> dot_dir_for(Some(dir), cache, environment) == Some(dir),
        dot_dir_for(None, cache, environment) == environment,
        dot_dir_for(Some("xdg-cache"@), None, environment) is None,
        dot_dir_for(Some("xdg-cache"@), cache, environment) == dot_dir_for(
            Some("xdg-cache"@),
            cache,
            other,
        ),
        dot_dir_for(Some("xdg-cache"@), Some(dir), environment) == Some(joined(dir, "gstreamer-dots"@)),
{
}

/// A directory below another one is the other one, one slash and the name: a slash is put between
/// them unless there is one already, or nothing to put it behind.
pub proof fn law_one_slash_stands_between(dir: Seq<char>, name: Seq<char>)
    requires
        dir.len() > 0,
    ensures
        ({
            let path = joined(dir, name);
            let n = path.len() - name.len();
            &&& path.take(dir.len() as int) == dir
            &&& path.skip(n) == name
            &&& path[n - 1] == '/'
            &&& n == dir.len() || (n == dir.len() + 1 && dir.last() != '/')
        }),
{
    reveal_strlit("/");
    let path = joined(dir, name);
    let n = path.len() - name.len();
    assert(path.take(dir.len() as int) =~= dir);
    assert(path.skip(n) =~= name);
}

/// The modes have the names `initial` and `automatic`, and any other name cleans nothing up.
pub proof fn law_modes_are_named(name: Seq<char>)
    ensures
        cleanup_mode_named(name) == CleanupMode::Initial <==> name == "initial"@,
        cleanup_mode_named(name) == CleanupMode::Automatic <==> name == "automatic"@,
        cleanup_mode_named("none"@) == CleanupMode::Never,
{
    reveal_strlit("initial");
    reveal_strlit("automatic");
    reveal_strlit("none");
    assert("initial"@.len() == 7 && "automatic"@.len() == 9 && "none"@.len() == 4);
}

/// Each parameter sets what it is about and nothing else: what is not given stays, in whatever way
/// the others are given.
pub proof fn law_parameters_set_their_own(before: Settings, params: Params, after: Settings)
    requires
        params_applied(before, params, after),
    ensures
        params.dot_prefix is None ==> after.dot_prefix == before.dot_prefix,
        params.dot_prefix is Some ==> after.dot_prefix == params.dot_prefix->0,
        params.dot_ts is None ==> after.dot_ts == before.dot_ts,
        params.dot_ts is Some ==> after.dot_ts == params.dot_ts->0,
        params.dot_pipeline_ptr is None ==> after.dot_pipeline_ptr == before.dot_pipeline_ptr,
        params.dot_pipeline_ptr is Some ==> after.dot_pipeline_ptr == params.dot_pipeline_ptr->0,
        params.cleanup_mode is None ==> after.cleanup_mode == before.cleanup_mode,
        params.cleanup_mode matches Some(name) ==> (after.cleanup_mode == CleanupMode::Initial
            <==> name@ == "initial"@) && (after.cleanup_mode == CleanupMode::Automatic <==> name@
            == "automatic"@),
        after.use_folders == before.use_folders,
{
    if let Some(name) = params.cleanup_mode {
        law_modes_are_named(name@);
    }
}

} // verus!
