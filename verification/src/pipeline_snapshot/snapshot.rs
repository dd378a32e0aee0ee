//! Which pipelines there are, and where their graphs go.

use super::settings::{CleanupMode, Settings};
use crate::text::{decimal, decimal_text, digit_char};
use std::collections::HashMap;
use vstd::prelude::*;

verus! {

broadcast use vstd::std_specs::hash::group_hash_axioms;

/// The tracer: its settings, the pipelines by address, each with a handle, and the number of the
/// next folder.
#[derive(Debug)]
pub struct PipelineSnapshot {
    pub settings: Settings,
    pub current_folder: u32,
    pub pipelines: HashMap<u64, u64>,
}

/// Where a snapshot goes.
pub open spec fn snapshot_dir(settings: Settings, current_folder: u32) -> Option<Seq<char>> {
    match settings.dot_dir {
        Some(dir) => if settings.use_folders {
            Some(dir@ + "/"@ + decimal_text(current_folder as nat))
        } else {
            Some(dir@)
        },
        None => None,
    }
}

impl PipelineSnapshot {
    /// The tracer without pipelines.
    pub fn new(settings: Settings) -> (tracer: PipelineSnapshot)
        ensures
            tracer.settings == settings,
            tracer.current_folder == 0,
            tracer.pipelines@ == Map::<u64, u64>::empty(),
    {
        PipelineSnapshot { settings, current_folder: 0, pipelines: HashMap::new() }
    }

    /// Notes a new element, where it is a pipeline.
    pub fn element_new(&mut self, is_pipeline: bool, address: u64, handle: u64)
        ensures
            final(self).settings == old(self).settings,
            final(self).current_folder == old(self).current_folder,
            final(self).pipelines@ == if is_pipeline {
                old(self).pipelines@.insert(address, handle)
            } else {
                old(self).pipelines@
            },
    {
        if is_pipeline {
            self.pipelines.insert(address, handle);
        }
    }

    /// Forgets an object, and says whether it was a pipeline.
    pub fn object_destroyed(&mut self, address: u64) -> (was_pipeline: bool)
        ensures
            final(self).settings == old(self).settings,
            final(self).current_folder == old(self).current_folder,
            final(self).pipelines@ == old(self).pipelines@.remove(address),
            was_pipeline == old(self).pipelines@.dom().contains(address),
    {
        let ghost before = self.pipelines@;
        let removed = self.pipelines.remove(&address);
        proof {
            assert(self.pipelines@ =~= before.remove(address));
        }
        removed.is_some()
    }

    /// The directory of the next snapshot, where there is one to go to. With folders, each
    /// snapshot takes a new one.
    pub fn snapshot_folder(&mut self) -> (r: Option<String>)
        requires
            old(self).settings.dot_dir is Some && old(self).settings.use_folders ==> old(
                self,
            ).current_folder < u32::MAX,
        ensures
            super::settings::text_in(r) == snapshot_dir(
                old(self).settings,
                old(self).current_folder,
            ),
            final(self).settings == old(self).settings,
            final(self).current_folder == if old(self).settings.dot_dir is Some && old(
                self,
            ).settings.use_folders {
                (old(self).current_folder + 1) as u32
            } else {
                old(self).current_folder
            },
            final(self).pipelines == old(self).pipelines,
    {
        match &self.settings.dot_dir {
            Some(dot_dir) => {
                let mut dir = dot_dir.clone();
                if self.settings.use_folders {
                    let folder: u32 = self.current_folder;
                    self.current_folder = folder + 1;
                    dir.append("/");
                    dir.append(decimal(folder as u64).as_str());
                }
                Some(dir)
            },
            None => None,
        }
    }
}

impl PipelineSnapshot {
    /// Whether the directory of a snapshot is cleaned up before it is taken.
    pub fn cleanup_before_snapshot(&self) -> (r: bool)
        ensures
            r == (self.settings.cleanup_mode == CleanupMode::Automatic),
    {
        match self.settings.cleanup_mode {
            CleanupMode::Automatic => true,
            _ => false,
        }
    }
}

impl PipelineSnapshot {
    /// Whether the directory is cleaned up when the tracer starts.
    pub fn cleanup_at_start(&self) -> (r: bool)
        ensures
            r == (self.settings.cleanup_mode == CleanupMode::Initial),
    {
        match self.settings.cleanup_mode {
            CleanupMode::Initial => true,
            _ => false,
        }
    }
}

/// The name of a graph, without its extension.
pub open spec fn dot_stem(
    settings: Settings,
    timestamp: Seq<char>,
    name: Seq<char>,
    address: Seq<char>,
) -> Seq<char> {
    (if settings.dot_ts {
        timestamp + "-"@
    } else {
        ""@
    }) + (match settings.dot_prefix {
        Some(prefix) => prefix@,
        None => ""@,
    }) + name + (if settings.dot_pipeline_ptr {
        "-"@ + address
    } else {
        ""@
    })
}

impl PipelineSnapshot {
    /// The path of the graph of a pipeline: `address` is its address as text.
    pub fn dot_path(
        &self,
        dot_dir: &str,
        timestamp: &str,
        name: &str,
        address: &str,
    ) -> (path: String)
        ensures
            path@ == dot_dir@ + "/"@ + dot_stem(self.settings, timestamp@, name@, address@) + ".dot"@,
    {
        let mut path = dot_dir.to_owned();
        path.append("/");
        let ghost dir = path@;
        proof {
            reveal_strlit("");
        }
        if self.settings.dot_ts {
            path.append(timestamp);
            path.append("-");
        }
        if let Some(prefix) = &self.settings.dot_prefix {
            path.append(prefix.as_str());
        }
        path.append(name);
        if self.settings.dot_pipeline_ptr {
            path.append("-");
            path.append(address);
        }
        proof {
            assert(path@ =~= dir + dot_stem(self.settings, timestamp@, name@, address@));
        }
        path.append(".dot");
        path
    }
}

/// Whether the name of a file has the extension of graphs: it ends in it, and is more than it.
pub open spec fn is_dot_name(name: Seq<char>) -> bool {
    name.len() > 4 && name.skip(name.len() - 4) == ".dot"@
}

/// Whether a file is removed in a cleanup.
pub fn is_dot_file(name: &str) -> (r: bool)
    ensures
        r == is_dot_name(name@),
{
    let len: usize = name.unicode_len();
    if len <= 4 {
        return false;
    }
    let end = name.substring_char(len - 4, len);
    proof {
        assert(name@.subrange(len - 4, len as int) =~= name@.skip(len - 4));
    }
    crate::text::str_eq(end, ".dot")
}

/// A pipeline is known from when it is made to when it is destroyed, and nothing of it is left
/// then.
pub proof fn law_pipelines_are_known_while_they_live(
    before: PipelineSnapshot,
    between: PipelineSnapshot,
    after: PipelineSnapshot,
    address: u64,
    handle: u64,
)
    requires
        !before.pipelines@.dom().contains(address),
        between.pipelines@ == before.pipelines@.insert(address, handle),
        after.pipelines@ == between.pipelines@.remove(address),
    ensures
        between.pipelines@.dom().contains(address),
        after.pipelines@ == before.pipelines@,
{
    assert(after.pipelines@ =~= before.pipelines@);
}

/// What a snapshot writes is what a cleanup removes, unless a graph has no name at all.
pub proof fn law_graphs_are_cleaned_up(
    settings: Settings,
    timestamp: Seq<char>,
    name: Seq<char>,
    address: Seq<char>,
)
    requires
        dot_stem(settings, timestamp, name, address).len() > 0,
    ensures
        is_dot_name(dot_stem(settings, timestamp, name, address) + ".dot"@),
{
    reveal_strlit(".dot");
    let file = dot_stem(settings, timestamp, name, address) + ".dot"@;
    assert(file.skip(file.len() - 4) =~= ".dot"@);
}

proof fn lemma_decimal_text_tells_apart(a: nat, b: nat)
    requires
        decimal_text(a) == decimal_text(b),
    ensures
        a == b,
    decreases a,
{
    let x = decimal_text(a);
    let y = decimal_text(b);
    lemma_decimal_text_is_there(a / 10);
    lemma_decimal_text_is_there(b / 10);
    if a < 10 && b < 10 {
        assert(x[0] == digit_char(a) && y[0] == digit_char(b));
    } else if a >= 10 && b >= 10 {
        assert(x.last() == digit_char(a % 10) && y.last() == digit_char(b % 10));
        assert(x.drop_last() =~= decimal_text(a / 10));
        assert(y.drop_last() =~= decimal_text(b / 10));
        lemma_decimal_text_tells_apart(a / 10, b / 10);
    } else {
        assert(x.len() != y.len());
    }
}

proof fn lemma_decimal_text_is_there(n: nat)
    ensures
        decimal_text(n).len() > 0,
{
}

/// With folders, no two snapshots go to the same one.
pub proof fn law_each_snapshot_has_its_folder(settings: Settings, a: u32, b: u32)
    requires
        settings.dot_dir is Some,
        settings.use_folders,
        a != b,
    ensures
        snapshot_dir(settings, a) != snapshot_dir(settings, b),
{
    let start = settings.dot_dir->0@ + "/"@;
    let x = start + decimal_text(a as nat);
    let y = start + decimal_text(b as nat);
    if x == y {
        assert(x.skip(start.len() as int) =~= decimal_text(a as nat));
        assert(y.skip(start.len() as int) =~= decimal_text(b as nat));
        lemma_decimal_text_tells_apart(a as nat, b as nat);
    }
}

/// A snapshot goes to the directory that is set, or to a folder right below it whose name is read
/// back as its number; it goes nowhere exactly where no directory is set.
pub proof fn law_snapshots_go_below_the_directory(settings: Settings, folder: u32)
    ensures
        snapshot_dir(settings, folder) is None <==> settings.dot_dir is None,
        settings.dot_dir matches Some(dir) ==> {
            let path = snapshot_dir(settings, folder)->0;
            let n = dir@.len() as int;
            &&& !settings.use_folders ==> path == dir@
            &&& settings.use_folders ==> path.take(n) == dir@ && path[n] == '/'
                && crate::text::number_of(path.skip(n + 1)) == folder
        },
{
    reveal_strlit("/");
    if let Some(dir) = settings.dot_dir {
        if settings.use_folders {
            let path = snapshot_dir(settings, folder)->0;
            let n = dir@.len() as int;
            crate::text::law_decimals_are_read_back(folder as nat);
            assert(path.take(n) =~= dir@);
            assert(path.skip(n + 1) =~= decimal_text(folder as nat));
        }
    }
}

/// The graph of a pipeline is named after it: the time and the prefix stand before its name and the
/// address behind it, each only where that is set. So the time starts the name and the address ends
/// it, and where they are not set they do not matter.
pub proof fn law_graphs_are_named_after_their_pipelines(
    settings: Settings,
    timestamp: Seq<char>,
    name: Seq<char>,
    address: Seq<char>,
    other: Seq<char>,
)
    ensures
        ({
            let stem = dot_stem(settings, timestamp, name, address);
            let prefix = match settings.dot_prefix {
                Some(prefix) => prefix@,
                None => Seq::empty(),
            };
            let start: int = if settings.dot_ts { timestamp.len() as int + 1 } else { 0 };
            let end: int = if settings.dot_pipeline_ptr { 1 + address.len() as int } else { 0 };
            &&& stem.len() == start + prefix.len() + name.len() + end
            &&& settings.dot_ts ==> stem.take(timestamp.len() as int) == timestamp
                && stem[timestamp.len() as int] == '-'
            &&& stem.subrange(start, start + prefix.len()) == prefix
            &&& stem.subrange(start + prefix.len(), stem.len() - end) == name
            &&& settings.dot_pipeline_ptr ==> stem.skip(stem.len() - address.len()) == address
                && stem[stem.len() - address.len() - 1] == '-'
            &&& !settings.dot_ts ==> stem == dot_stem(settings, other, name, address)
            &&& !settings.dot_pipeline_ptr ==> stem == dot_stem(settings, timestamp, name, other)
        }),
{
    reveal_strlit("");
    reveal_strlit("-");
    let stem = dot_stem(settings, timestamp, name, address);
    let prefix = match settings.dot_prefix {
        Some(prefix) => prefix@,
        None => Seq::empty(),
    };
    let start: int = if settings.dot_ts { timestamp.len() as int + 1 } else { 0 };
    let end: int = if settings.dot_pipeline_ptr { 1 + address.len() as int } else { 0 };
    assert(stem.subrange(start, start + prefix.len()) =~= prefix);
    assert(stem.subrange(start + prefix.len(), stem.len() - end) =~= name);
    if settings.dot_ts {
        assert(stem.take(timestamp.len() as int) =~= timestamp);
    }
    if settings.dot_pipeline_ptr {
        assert(stem.skip(stem.len() - address.len()) =~= address);
    }
}

/// Exactly the files with something before the extension of graphs are graphs.
pub proof fn law_graphs_are_known_by_their_extension(name: Seq<char>, stem: Seq<char>)
    ensures
        is_dot_name(stem + seq!['.', 'd', 'o', 't']) <==> stem.len() > 0,
        is_dot_name(name) ==> name == name.take(name.len() - 4) + seq!['.', 'd', 'o', 't'],
        is_dot_name(name) ==> name.len() > 4,
{
    reveal_strlit(".dot");
    let file = stem + seq!['.', 'd', 'o', 't'];
    assert(".dot"@ =~= seq!['.', 'd', 'o', 't']);
    assert(file.skip(file.len() - 4) =~= ".dot"@);
    if is_dot_name(name) {
        assert(name =~= name.take(name.len() - 4) + name.skip(name.len() - 4));
    }
}

} // verus!
