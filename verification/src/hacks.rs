//! Payload descriptors and the catalog they come from.
//!
//! A [`Hack`] is the immutable record of one downloadable, injectable
//! artifact. Its local cache path is never set independently: it is always
//! the fixed cache directory joined with the remote file name.

use vstd::prelude::*;
use crate::fetch::{FetchError, FetchTask};
use crate::helper::{helper_arch_spec, helper_file_name, helper_for_process};
use crate::orchestrator::RunConfig;
use crate::strategy::{manual_map_required, select, InjectionStrategy};
use crate::text::{
    concat3, join_words, join_words_from, split_words, split_words_spec, str_eq,
};

verus! {

/// One record of the catalog endpoint's JSON answer, as plain values.
pub struct HackApiResponse {
    pub name: String,
    pub description: String,
    pub author: String,
    pub status: String,
    pub file: String,
    pub process: String,
    pub source: String,
    pub game: String,
}

/// The local cache path of a file: the cache directory joined with the
/// file's name.
pub open spec fn cache_path_spec(root: Seq<char>, file: Seq<char>) -> Seq<char> {
    root + "/"@ + file
}

/// Joins the cache directory with a file name.
pub fn cache_path(root: &str, file: &str) -> (r: String)
    ensures
        r@ == cache_path_spec(root@, file@),
{
    concat3(root, "/", file)
}

/// An immutable descriptor of a downloadable, injectable artifact.
pub struct Hack {
    /// Display name of the payload.
    pub name: String,
    /// Free-text description.
    pub description: String,
    /// Author attribution.
    pub author: String,
    /// Free-text provenance status.
    pub status: String,
    /// File name on the content endpoints.
    pub file: String,
    /// Executable name of the target process.
    pub process: String,
    /// Where the payload's source lives, if published.
    pub source: String,
    /// Game identity, used for grouping and strategy selection.
    pub game: String,
    /// Local cache path; always derived from the cache root and `file`.
    pub file_path: String,
}

impl Clone for Hack {
    /// Descriptors have value semantics and are cloned freely.
    fn clone(&self) -> (r: Self)
        ensures
            r == *self,
    {
        Hack {
            name: self.name.clone(),
            description: self.description.clone(),
            author: self.author.clone(),
            status: self.status.clone(),
            file: self.file.clone(),
            process: self.process.clone(),
            source: self.source.clone(),
            game: self.game.clone(),
            file_path: self.file_path.clone(),
        }
    }
}

impl Hack {
    /// The descriptor's cache path is the one derived from `root` and its
    /// remote file name.
    pub open spec fn rooted_at(&self, root: Seq<char>) -> bool {
        self.file_path@ == cache_path_spec(root, self.file@)
    }

    /// Builds a descriptor; the cache path is derived, never passed in.
    pub fn new(
        cache_root: &str,
        name: &str,
        description: &str,
        author: &str,
        status: &str,
        file: &str,
        process: &str,
        source: &str,
        game: &str,
    ) -> (h: Hack)
        ensures
            h.name@ == name@,
            h.description@ == description@,
            h.author@ == author@,
            h.status@ == status@,
            h.file@ == file@,
            h.process@ == process@,
            h.source@ == source@,
            h.game@ == game@,
            h.rooted_at(cache_root@),
    {
        Hack {
            name: name.to_owned(),
            description: description.to_owned(),
            author: author.to_owned(),
            status: status.to_owned(),
            file: file.to_owned(),
            process: process.to_owned(),
            source: source.to_owned(),
            game: game.to_owned(),
            file_path: cache_path(cache_root, file),
        }
    }

    /// Plans the fetch of this payload to `file_path` over the endpoint
    /// pair: succeed at once when the file is already there, else primary
    /// then fallback. The shell drives the returned task.
    pub fn download(&self, file_path: &str, primary: &str, fallback: &str) -> (t: FetchTask)
        ensures
            t.remote@ == self.file@,
            t.dest@ == file_path@,
            t.primary@ == primary@,
            t.fallback@ == fallback@,
            t.state is CheckingCache,
    {
        FetchTask::new(self.file.as_str(), file_path, primary, fallback)
    }

    /// The wording a failed payload download is reported with.
    pub fn download_failure_text(e: &FetchError) -> (r: String)
        ensures
            r@ == "Failed to download file: "@ + e.text_spec(),
    {
        let cause = e.text();
        crate::text::concat2("Failed to download file: ", cause.as_str())
    }

    /// Turns this descriptor into one injection request: the strategy is
    /// derived from the game identity, and the manual-map helper slot from
    /// the target process.
    pub fn injection_request(&self, cache_root: &str, skip_delay: bool) -> (cfg: RunConfig)
        ensures
            cfg.name@ == self.name@,
            cfg.remote_file@ == self.file@,
            cfg.payload_path@ == self.file_path@,
            cfg.target_process@ == self.process@,
            cfg.helper_file@ == helper_file_name(helper_arch_spec(self.process@)),
            cfg.helper_path@ == cache_path_spec(
                cache_root@,
                helper_file_name(helper_arch_spec(self.process@)),
            ),
            cfg.strategy == InjectionStrategy::ManualMap <==> manual_map_required(self.game@),
            cfg.skip_delay == skip_delay,
    {
        let helper_file = helper_for_process(self.process.as_str());
        let helper_path = cache_path(cache_root, helper_file.as_str());
        RunConfig {
            name: self.name.clone(),
            remote_file: self.file.clone(),
            payload_path: self.file_path.clone(),
            target_process: self.process.clone(),
            helper_file,
            helper_path,
            strategy: select(self.game.as_str()),
            skip_delay,
        }
    }
}

/// What the catalog names a payload after folding, when the lowercase
/// presentation option is on.
pub uninterp spec fn lower_of(s: Seq<char>) -> Seq<char>;

/// Relies on `str::to_lowercase`: the folded form depends on the characters
/// alone, and an empty string stays empty.
#[verifier::external_body]
fn lowercase(s: &str) -> (r: String)
    ensures
        r@ == lower_of(s@),
        s@.len() == 0 ==> r@.len() == 0,
{
    s.to_lowercase()
}

/// How one catalog record turns into a descriptor: the name and description
/// are folded to lowercase when asked, everything else carries over, and
/// the cache path is derived from the record's file name.
pub open spec fn hack_of_record(
    rec: HackApiResponse,
    lowercase: bool,
    root: Seq<char>,
    h: Hack,
) -> bool {
    &&& h.name@ == (if lowercase { lower_of(rec.name@) } else { rec.name@ })
    &&& h.description@ == (if lowercase { lower_of(rec.description@) } else { rec.description@ })
    &&& h.author@ == rec.author@
    &&& h.status@ == rec.status@
    &&& h.file@ == rec.file@
    &&& h.process@ == rec.process@
    &&& h.source@ == rec.source@
    &&& h.game@ == rec.game@
    &&& h.rooted_at(root)
}

/// Turns the parsed catalog into descriptors. An empty catalog is refused;
/// otherwise every record yields its descriptor, in order.
pub fn hacks_from_catalog(
    records: &Vec<HackApiResponse>,
    lowercase_names: bool,
    cache_root: &str,
) -> (r: Result<Vec<Hack>, String>)
    ensures
        records@.len() == 0 <==> r is Err,
        r matches Err(m) ==> m@ == "No hacks available."@,
        r matches Ok(hacks) ==> {
            &&& hacks@.len() == records@.len()
            &&& forall|i: int| 0 <= i < records@.len()
                ==> hack_of_record(records@[i], lowercase_names, cache_root@, #[trigger] hacks@[i])
        },
{
    if records.len() == 0 {
        return Err("No hacks available.".to_owned());
    }
    let mut hacks: Vec<Hack> = Vec::new();
    let mut i: usize = 0;
    while i < records.len()
        invariant
            i <= records@.len(),
            hacks@.len() == i,
            forall|j: int| 0 <= j < i
                ==> hack_of_record(records@[j], lowercase_names, cache_root@, #[trigger] hacks@[j]),
        decreases records@.len() - i,
    {
        let rec = &records[i];
        let name = if lowercase_names {
            lowercase(rec.name.as_str())
        } else {
            rec.name.clone()
        };
        let description = if lowercase_names {
            lowercase(rec.description.as_str())
        } else {
            rec.description.clone()
        };
        let h = Hack::new(
            cache_root,
            name.as_str(),
            description.as_str(),
            rec.author.as_str(),
            rec.status.as_str(),
            rec.file.as_str(),
            rec.process.as_str(),
            rec.source.as_str(),
            rec.game.as_str(),
        );
        hacks.push(h);
        i = i + 1;
    }
    Ok(hacks)
}

/// Looks a payload up by its display name; the first match wins.
pub fn get_hack_by_name(hacks: &Vec<Hack>, name: &str) -> (r: Option<Hack>)
    ensures
        r matches Some(h) ==> exists|i: int|
            {
                &&& 0 <= i < hacks@.len()
                &&& h == hacks@[i]
                &&& hacks@[i].name@ == name@
                &&& forall|j: int| 0 <= j < i ==> #[trigger] hacks@[j].name@ != name@
            },
        r is None ==> forall|i: int| 0 <= i < hacks@.len() ==> #[trigger] hacks@[i].name@ != name@,
{
    let mut i: usize = 0;
    while i < hacks.len()
        invariant
            i <= hacks@.len(),
            forall|j: int| 0 <= j < i ==> #[trigger] hacks@[j].name@ != name@,
        decreases hacks@.len() - i,
    {
        if str_eq(hacks[i].name.as_str(), name) {
            return Some(hacks[i].clone());
        }
        i = i + 1;
    }
    None
}

/// Splits a CS:Source-family game label into the game's name (its first
/// word) and the version (the rest, single-spaced), for grouping payloads
/// under one heading per game and version. A label without a first word
/// falls back to the family name, one without a version to a placeholder.
pub fn css_game_and_version(game: &str) -> (r: (String, String))
    ensures
        ({
            let ws = split_words_spec(game@);
            &&& r.0@ == (if ws.len() == 0 { "CSS"@ } else { ws[0] })
            &&& r.1@ == (if ws.len() <= 1 { "Unknown version"@ } else { join_words(ws.skip(1), ' ') })
        }),
{
    let words = split_words(game);
    if words.len() == 0 {
        ("CSS".to_owned(), "Unknown version".to_owned())
    } else if words.len() == 1 {
        let name = words[0].clone();
        (name, "Unknown version".to_owned())
    } else {
        let name = words[0].clone();
        let version = join_words_from(&words, 1);
        proof {
            assert(words@.map_values(|w: String| w@).skip(1)
                == split_words_spec(game@).skip(1));
        }
        (name, version)
    }
}

/// Whether some element of `s` reads `x`.
pub open spec fn seq_has_view(s: Seq<String>, x: Seq<char>) -> bool {
    exists|m: int| 0 <= m < s.len() && s[m]@ == x
}

/// Whether `x` names the target process of some catalog entry.
pub open spec fn is_process_of(x: Seq<char>, hacks: Seq<Hack>) -> bool {
    exists|k: int| 0 <= k < hacks.len() && x == hacks[k].process@
}

/// The distinct target processes of a catalog, first occurrence first: no
/// name twice, every entry's process present, nothing else present.
pub fn get_all_processes(hacks: &Vec<Hack>) -> (r: Vec<String>)
    ensures
        forall|a: int, b: int| 0 <= a < b < r@.len() ==> r@[a]@ != r@[b]@,
        forall|i: int| 0 <= i < hacks@.len() ==> seq_has_view(r@, #[trigger] hacks@[i].process@),
        forall|j: int| 0 <= j < r@.len() ==> is_process_of(#[trigger] r@[j]@, hacks@),
{
    let mut out: Vec<String> = Vec::new();
    let mut i: usize = 0;
    while i < hacks.len()
        invariant
            i <= hacks@.len(),
            forall|a: int, b: int| 0 <= a < b < out@.len() ==> out@[a]@ != out@[b]@,
            forall|k: int| 0 <= k < i ==> seq_has_view(out@, #[trigger] hacks@[k].process@),
            forall|j: int| 0 <= j < out@.len() ==> is_process_of(#[trigger] out@[j]@, hacks@),
        decreases hacks@.len() - i,
    {
        let p = &hacks[i].process;
        let mut seen = false;
        let mut j: usize = 0;
        while j < out.len()
            invariant
                j <= out@.len(),
                seen <==> exists|m: int| 0 <= m < j && #[trigger] out@[m]@ == p@,
            decreases out@.len() - j,
        {
            if str_eq(out[j].as_str(), p.as_str()) {
                seen = true;
                j = out.len();
            } else {
                j = j + 1;
            }
        }
        let ghost pre = out@;
        proof {
            assert(seen <==> seq_has_view(pre, p@));
        }
        if !seen {
            out.push(p.clone());
        }
        proof {
            if !seen {
                assert(out@ =~= pre.push(out@[pre.len() as int]));
                assert(out@[pre.len() as int]@ == p@);
                assert forall|a: int, b: int| 0 <= a < b < out@.len() implies out@[a]@ != out@[b]@ by {
                    if b == pre.len() {
                        assert(!(0 <= a < pre.len() && pre[a]@ == p@));
                    }
                }
            }
            assert forall|k: int| 0 <= k < i + 1 implies seq_has_view(
                out@,
                #[trigger] hacks@[k].process@,
            ) by {
                if k < i {
                    let jj = choose|m: int| 0 <= m < pre.len() && pre[m]@ == hacks@[k].process@;
                    assert(out@[jj]@ == hacks@[k].process@);
                } else if seen {
                    let m = choose|m: int| 0 <= m < pre.len() && pre[m]@ == p@;
                    assert(out@[m]@ == hacks@[k].process@);
                } else {
                    assert(out@[pre.len() as int]@ == hacks@[k].process@);
                }
            }
            assert forall|j2: int| 0 <= j2 < out@.len() implies is_process_of(
                #[trigger] out@[j2]@,
                hacks@,
            ) by {
                if j2 >= pre.len() {
                    assert(out@[j2]@ == hacks@[i as int].process@);
                }
            }
        }
        i = i + 1;
    }
    out
}

} // verus!
