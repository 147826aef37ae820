//! What the operator allows.

use crate::str_map::StrMap;
use crate::text::same_text;
use vstd::prelude::*;

verus! {

/// Limits on the sandboxes of one image.
#[derive(Debug, Clone, Copy, PartialEq, Eq)]
pub struct PerImageCap {
    pub max_cpus: u32,
    pub max_memory_mb: u32,
}

/// The limits of images, by image name. No image occurs twice.
#[derive(Debug, PartialEq, Eq)]
pub struct ImageCaps {
    caps: Vec<(String, PerImageCap)>,
}

spec fn distinct_images(caps: Seq<(String, PerImageCap)>) -> bool {
    forall|i: int, j: int|
        0 <= i < j < caps.len() ==> (#[trigger] caps[i]).0@ != (#[trigger] caps[j]).0@
}

spec fn caps_map(caps: Seq<(String, PerImageCap)>) -> Map<Seq<char>, PerImageCap>
    decreases caps.len(),
{
    if caps.len() == 0 {
        Map::empty()
    } else {
        caps_map(caps.drop_last()).insert(caps.last().0@, caps.last().1)
    }
}

proof fn lemma_caps_map(caps: Seq<(String, PerImageCap)>, k: Seq<char>)
    requires
        distinct_images(caps),
    ensures
        caps_map(caps).contains_key(k) <==> exists|i: int|
            0 <= i < caps.len() && (#[trigger] caps[i]).0@ == k,
        forall|i: int|
            0 <= i < caps.len() && (#[trigger] caps[i]).0@ == k ==> caps_map(caps)[k]
                == caps[i].1,
    decreases caps.len(),
{
    if caps.len() > 0 {
        let init = caps.drop_last();
        assert(distinct_images(init)) by {
            assert forall|i: int, j: int| 0 <= i < j < init.len() implies (#[trigger] init[i]).0@
                != (#[trigger] init[j]).0@ by {
                assert(caps[i].0@ != caps[j].0@);
            }
        }
        lemma_caps_map(init, k);
        if exists|i: int| 0 <= i < init.len() && (#[trigger] init[i]).0@ == k {
            let i = choose|i: int| 0 <= i < init.len() && (#[trigger] init[i]).0@ == k;
            assert(caps[i].0@ == k);
        }
        if caps.last().0@ == k {
            assert(caps[caps.len() - 1].0@ == k);
        }
        if exists|i: int| 0 <= i < caps.len() && (#[trigger] caps[i]).0@ == k {
            let i = choose|i: int| 0 <= i < caps.len() && (#[trigger] caps[i]).0@ == k;
            if i < init.len() {
                assert(init[i].0@ == k);
            }
        }
        assert forall|i: int| 0 <= i < caps.len() && (#[trigger] caps[i]).0@ == k implies caps_map(
            caps,
        )[k] == caps[i].1 by {
            if i < init.len() {
                assert(init[i].0@ == k);
                assert(caps[i].0@ != caps[caps.len() - 1].0@);
            }
        }
    }
}

impl View for ImageCaps {
    type V = Map<Seq<char>, PerImageCap>;

    closed spec fn view(&self) -> Map<Seq<char>, PerImageCap> {
        caps_map(self.caps@)
    }
}

impl ImageCaps {
    #[verifier::type_invariant]
    spec fn well_formed(self) -> bool {
        distinct_images(self.caps@)
    }

    /// No limits.
    pub fn new() -> (r: ImageCaps)
        ensures
            r@ == Map::<Seq<char>, PerImageCap>::empty(),
    {
        ImageCaps { caps: Vec::new() }
    }

    /// The limits of `image`.
    pub fn get(&self, image: &str) -> (r: Option<PerImageCap>)
        ensures
            match r {
                Some(c) => self@.contains_pair(image@, c),
                None => !self@.contains_key(image@),
            },
    {
        proof {
            use_type_invariant(self);
            lemma_caps_map(self.caps@, image@);
        }
        let mut i: usize = 0;
        while i < self.caps.len()
            invariant
                i <= self.caps@.len(),
                self@ == caps_map(self.caps@),
                self@.contains_key(image@) <==> exists|j: int|
                    0 <= j < self.caps@.len() && (#[trigger] self.caps@[j]).0@ == image@,
                forall|j: int|
                    0 <= j < self.caps@.len() && (#[trigger] self.caps@[j]).0@ == image@
                        ==> self@[image@] == self.caps@[j].1,
                forall|j: int| 0 <= j < i ==> (#[trigger] self.caps@[j]).0@ != image@,
            decreases self.caps@.len() - i,
        {
            if same_text(self.caps[i].0.as_str(), image) {
                return Some(self.caps[i].1);
            }
            i += 1;
        }
        None
    }

    /// Give `image` these limits, in place of any it had.
    pub fn insert(&mut self, image: String, cap: PerImageCap)
        ensures
            final(self)@ == old(self)@.insert(image@, cap),
    {
        proof {
            use_type_invariant(&*self);
        }
        let mut caps: Vec<(String, PerImageCap)> = Vec::new();
        std::mem::swap(&mut caps, &mut self.caps);
        let ghost start = caps@;
        let ghost key = image@;
        let mut i: usize = 0;
        while i < caps.len() && !same_text(caps[i].0.as_str(), image.as_str())
            invariant
                i <= caps@.len(),
                caps@ == start,
                key == image@,
                forall|j: int| 0 <= j < i ==> (#[trigger] start[j]).0@ != key,
            decreases caps@.len() - i,
        {
            i += 1;
        }
        let ghost at = i;
        if i < caps.len() {
            caps.set(i, (image, cap));
        } else {
            caps.push((image, cap));
        }
        proof {
            let now = caps@;
            assert(distinct_images(now)) by {
                assert forall|a: int, b: int| 0 <= a < b < now.len() implies (#[trigger] now[a]).0@
                    != (#[trigger] now[b]).0@ by {
                    if b < start.len() {
                        assert(start[a].0@ != start[b].0@);
                    } else {
                        assert(start[a].0@ != key);
                    }
                }
            }
            let m = caps_map(start).insert(key, cap);
            assert forall|k: Seq<char>| #[trigger]
                caps_map(now).dom().contains(k) == m.dom().contains(k) by {
                lemma_caps_map(start, k);
                lemma_caps_map(now, k);
                if k == key {
                    if now.len() == start.len() {
                        assert(now[at as int].0@ == k);
                    } else {
                        assert(now[start.len() as int].0@ == k);
                    }
                } else {
                    if exists|a: int| 0 <= a < start.len() && (#[trigger] start[a]).0@ == k {
                        let a = choose|a: int| 0 <= a < start.len() && (#[trigger] start[a]).0@ == k;
                        assert(now[a].0@ == k);
                    }
                    if exists|a: int| 0 <= a < now.len() && (#[trigger] now[a]).0@ == k {
                        let a = choose|a: int| 0 <= a < now.len() && (#[trigger] now[a]).0@ == k;
                        assert(start[a].0@ == k);
                    }
                }
            }
            assert forall|k: Seq<char>| #[trigger] caps_map(now).dom().contains(k) implies caps_map(
                now,
            )[k] == m[k] by {
                lemma_caps_map(start, k);
                lemma_caps_map(now, k);
                let a = choose|a: int| 0 <= a < now.len() && (#[trigger] now[a]).0@ == k;
                if k == key {
                    if now.len() == start.len() {
                        assert(now[at as int].0@ == k);
                    } else {
                        assert(now[start.len() as int].0@ == k);
                    }
                } else {
                    assert(start[a].0@ == k);
                }
            }
            assert(caps_map(now) =~= m);
        }
        self.caps = caps;
    }
}

/// What the operator allows, and what applies where a caller does not say.
#[derive(Debug)]
pub struct SandboxConfig {
    /// Whether an image that is not on this machine is fetched.
    pub auto_install: bool,
    /// The images that may be booted, by catalog name.
    pub image_allowlist: Vec<String>,
    /// The images that come with the daemon: catalog name and OCI reference.
    pub preset_images: StrMap,
    /// The operator's own images: catalog name and OCI reference.
    pub custom_images: StrMap,
    pub per_image_caps: ImageCaps,
    pub default_cpus: u32,
    pub default_memory_mb: u32,
    pub default_idle_timeout_secs: u64,
    /// Most sandboxes at a time.
    pub max_concurrent_sandboxes: u32,
}

} // verus!
