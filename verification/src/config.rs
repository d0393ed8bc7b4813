//! The loader's configuration, as plain values.
//!
//! The shell persists this record; here live its shape, its defaults, and
//! the endpoint URLs the fetch service is pointed at.

use vstd::prelude::*;
use crate::logger::LogLevel;
use crate::text::str_eq;

verus! {

/// Whether some element of `s` reads `x`.
pub open spec fn holds_name(s: Seq<String>, x: Seq<char>) -> bool {
    exists|m: int| 0 <= m < s.len() && s[m]@ == x
}

/// A display colour, one byte per channel.
#[derive(Clone, Copy, Debug, PartialEq, Eq, Structural)]
pub struct Rgba {
    pub red: u8,
    pub green: u8,
    pub blue: u8,
    pub alpha: u8,
}

/// The gold used to tint favourite entries.
pub fn default_favorites_color() -> (c: Rgba)
    ensures
        c == (Rgba { red: 255, green: 215, blue: 0, alpha: 255 }),
{
    Rgba { red: 255, green: 215, blue: 0, alpha: 255 }
}

/// Where the catalog is fetched from.
pub fn default_api_endpoint() -> (r: String)
    ensures
        r@ == "https://raw.githubusercontent.com/Unkn0Wms/UnknProject/refs/heads/main/resources/Hacklist.html"@,
{
    "https://raw.githubusercontent.com/Unkn0Wms/UnknProject/refs/heads/main/resources/Hacklist.html".to_owned()
}

/// The primary content endpoint payloads are fetched from.
pub fn default_cdn_endpoint() -> (r: String)
    ensures
        r@ == "https://raw.githubusercontent.com/Unkn0Wms/UnknProject/refs/heads/main/resources/hacks/"@,
{
    "https://raw.githubusercontent.com/Unkn0Wms/UnknProject/refs/heads/main/resources/hacks/".to_owned()
}

/// The fallback content endpoint, tried when the primary fails.
pub fn default_cdn_fallback_endpoint() -> (r: String)
    ensures
        r@ == "https://raw.githubusercontent.com/Unkn0Wms/UnknProject/refs/heads/main/resources/hacks/"@,
{
    "https://raw.githubusercontent.com/Unkn0Wms/UnknProject/refs/heads/main/resources/hacks/".to_owned()
}

/// The severity filter a fresh installation logs at.
pub fn default_log_level() -> (r: LogLevel)
    ensures
        r == LogLevel::Info,
{
    LogLevel::Info
}

/// Everything the loader remembers between launches.
pub struct Config {
    /// Names of the payloads marked as favourites.
    pub favorites: Vec<String>,
    pub show_only_favorites: bool,
    pub favorites_color: Rgba,
    pub automatically_select_hack: bool,
    /// Bypasses the cosmetic pacing delays between injection steps.
    pub skip_injects_delay: bool,
    /// Folds catalog names and descriptions to lowercase.
    pub lowercase_hacks: bool,
    /// Where the catalog is fetched from.
    pub api_endpoint: String,
    /// The primary content endpoint.
    pub cdn_endpoint: String,
    /// The fallback content endpoint.
    pub cdn_fallback_endpoint: String,
    pub hide_steam_account: bool,
    pub hide_statistics: bool,
    pub disable_notifications: bool,
    pub disable_rpc: bool,
    /// The payload re-selected on launch, when automatic selection is on.
    pub selected_hack: String,
    pub log_level: LogLevel,
}

/// What a fresh configuration holds.
pub open spec fn is_default_config(c: Config) -> bool {
    &&& c.favorites@.len() == 0
    &&& !c.show_only_favorites
    &&& c.favorites_color == (Rgba { red: 255, green: 215, blue: 0, alpha: 255 })
    &&& c.automatically_select_hack
    &&& !c.skip_injects_delay
    &&& c.lowercase_hacks
    &&& c.api_endpoint@
        == "https://raw.githubusercontent.com/Unkn0Wms/UnknProject/refs/heads/main/resources/Hacklist.html"@
    &&& c.cdn_endpoint@
        == "https://raw.githubusercontent.com/Unkn0Wms/UnknProject/refs/heads/main/resources/hacks/"@
    &&& c.cdn_fallback_endpoint@
        == "https://raw.githubusercontent.com/Unkn0Wms/UnknProject/refs/heads/main/resources/hacks/"@
    &&& !c.hide_steam_account
    &&& !c.hide_statistics
    &&& !c.disable_notifications
    &&& !c.disable_rpc
    &&& c.selected_hack@ == Seq::<char>::empty()
    &&& c.log_level == LogLevel::Info
}

impl Default for Config {
    /// A fresh configuration.
    fn default() -> (c: Config)
        ensures
            is_default_config(c),
    {
        Config {
            favorites: Vec::new(),
            show_only_favorites: false,
            favorites_color: default_favorites_color(),
            automatically_select_hack: true,
            skip_injects_delay: false,
            lowercase_hacks: true,
            api_endpoint: default_api_endpoint(),
            cdn_endpoint: default_cdn_endpoint(),
            cdn_fallback_endpoint: default_cdn_fallback_endpoint(),
            hide_steam_account: false,
            hide_statistics: false,
            disable_notifications: false,
            disable_rpc: false,
            selected_hack: String::new(),
            log_level: default_log_level(),
        }
    }
}

impl Config {
    /// No payload is a favourite twice.
    pub open spec fn favorites_wf(&self) -> bool {
        forall|i: int, j: int| 0 <= i < j < self.favorites@.len()
            ==> self.favorites@[i]@ != self.favorites@[j]@
    }

    /// Whether the payload named `name` is marked as a favourite.
    pub fn is_favorite(&self, name: &str) -> (r: bool)
        ensures
            r == holds_name(self.favorites@, name@),
    {
        let mut i: usize = 0;
        while i < self.favorites.len()
            invariant
                i <= self.favorites@.len(),
                forall|j: int| 0 <= j < i ==> #[trigger] self.favorites@[j]@ != name@,
            decreases self.favorites@.len() - i,
        {
            if str_eq(self.favorites[i].as_str(), name) {
                return true;
            }
            i = i + 1;
        }
        false
    }

    /// Marks the payload named `name` as a favourite, or unmarks it if it
    /// already is one; every other favourite stays.
    pub fn toggle_favorite(&mut self, name: &str)
        requires
            old(self).favorites_wf(),
        ensures
            final(self).favorites_wf(),
            holds_name(final(self).favorites@, name@) == !holds_name(old(self).favorites@, name@),
            forall|x: Seq<char>| x != name@
                ==> #[trigger] holds_name(final(self).favorites@, x)
                    == holds_name(old(self).favorites@, x),
            final(self).show_only_favorites == old(self).show_only_favorites,
            final(self).selected_hack == old(self).selected_hack,
            final(self).skip_injects_delay == old(self).skip_injects_delay,
    {
        let ghost pre = self.favorites@;
        let n = self.favorites.len();
        let mut i: usize = 0;
        while i < n
            invariant
                n == self.favorites@.len(),
                i <= n,
                self.favorites@ == pre,
                pre == old(self).favorites@,
                *self == *old(self),
                old(self).favorites_wf(),
                forall|j: int| 0 <= j < i ==> #[trigger] pre[j]@ != name@,
            decreases n - i,
        {
            if str_eq(self.favorites[i].as_str(), name) {
                self.favorites.remove(i);
                proof {
                    let post = self.favorites@;
                    assert(post =~= pre.subrange(0, i as int)
                        + pre.subrange(i + 1 as int, pre.len() as int));
                    assert forall|x: Seq<char>| x != name@ implies #[trigger] holds_name(post, x)
                        == holds_name(pre, x) by {
                        if holds_name(post, x) {
                            let m = choose|m: int| 0 <= m < post.len() && post[m]@ == x;
                            if m < i {
                                assert(pre[m]@ == x);
                            } else {
                                assert(pre[m + 1]@ == x);
                            }
                        }
                        if holds_name(pre, x) {
                            let m = choose|m: int| 0 <= m < pre.len() && pre[m]@ == x;
                            if m < i {
                                assert(post[m]@ == x);
                            } else {
                                assert(m != i);
                                assert(post[m - 1]@ == x);
                            }
                        }
                    }
                    assert(!holds_name(post, name@)) by {
                        if holds_name(post, name@) {
                            let m = choose|m: int| 0 <= m < post.len() && post[m]@ == name@;
                            if m < i {
                                assert(pre[m]@ == name@);
                            } else {
                                assert(pre[m + 1]@ == name@);
                            }
                        }
                    }
                    assert forall|a: int, b: int| 0 <= a < b < post.len() implies post[a]@
                        != post[b]@ by {
                        let pa: int = if a < i { a } else { a + 1 };
                        let pb: int = if b < i { b } else { b + 1 };
                        assert(post[a]@ == pre[pa]@);
                        assert(post[b]@ == pre[pb]@);
                        assert(pre[pa]@ != pre[pb]@);
                    }
                    assert(holds_name(pre, name@));
                }
                return;
            }
            i = i + 1;
        }
        proof {
            assert(!holds_name(pre, name@)) by {
                if holds_name(pre, name@) {
                    let m = choose|m: int| 0 <= m < pre.len() && pre[m]@ == name@;
                }
            }
        }
        self.favorites.push(name.to_owned());
        proof {
            let post = self.favorites@;
            assert(post[pre.len() as int]@ == name@);
            assert(holds_name(post, name@));
            assert forall|x: Seq<char>| x != name@ implies #[trigger] holds_name(post, x)
                == holds_name(pre, x) by {
                if holds_name(post, x) {
                    let m = choose|m: int| 0 <= m < post.len() && post[m]@ == x;
                    assert(m < pre.len());
                    assert(pre[m]@ == x);
                }
                if holds_name(pre, x) {
                    let m = choose|m: int| 0 <= m < pre.len() && pre[m]@ == x;
                    assert(post[m]@ == x);
                }
            }
            assert forall|a: int, b: int| 0 <= a < b < post.len() implies post[a]@ != post[b]@ by {
                if b < pre.len() {
                    assert(pre[a]@ != pre[b]@);
                } else {
                    assert(pre[a]@ != name@);
                }
            }
        }
    }

    /// Throws every setting back to its default; the shell persists the
    /// result.
    pub fn reset(&mut self)
        ensures
            is_default_config(*final(self)),
    {
        *self = Config::default();
    }
}

} // verus!
