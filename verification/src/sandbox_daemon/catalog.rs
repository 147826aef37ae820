//! The images that sandboxes boot, by catalog name.

use crate::sandbox_daemon::config::SandboxConfig;
use crate::sandbox_daemon::errors::{fails, SandboxError, SandboxErrorCode};
use crate::text::{same_text, texts};
use vstd::prelude::*;

verus! {

/// The OCI reference of a known image.
pub open spec fn image_ref(cfg: SandboxConfig, image: Seq<char>) -> Option<Seq<char>> {
    if cfg.preset_images@.contains_key(image) {
        Some(cfg.preset_images@[image])
    } else if cfg.custom_images@.contains_key(image) {
        Some(cfg.custom_images@[image])
    } else {
        None
    }
}

/// The image is known and may be booted: one does not imply the other.
pub open spec fn image_allowed(cfg: SandboxConfig, image: Seq<char>) -> bool {
    texts(cfg.image_allowlist@).contains(image) && image_ref(cfg, image) is Some
}

/// The OCI reference of an image that may be booted.
pub fn check_allowlist(cfg: &SandboxConfig, image: &str) -> (r: Result<String, SandboxError>)
    ensures
        match r {
            Ok(oci_ref) => image_allowed(*cfg, image@) && image_ref(*cfg, image@) == Some(oci_ref@),
            Err(_) => !image_allowed(*cfg, image@) && fails(r, SandboxErrorCode::S100, image@),
        },
{
    let list = &cfg.image_allowlist;
    let mut listed = false;
    let mut i: usize = 0;
    while i < list.len()
        invariant
            i <= list@.len(),
            *list == cfg.image_allowlist,
            listed == exists|j: int| 0 <= j < i && (#[trigger] list@[j])@ == image@,
        decreases list@.len() - i,
    {
        if same_text(list[i].as_str(), image) {
            listed = true;
            assert(list@[i as int]@ == image@);
        }
        i += 1;
    }
    assert(listed == texts(list@).contains(image@)) by {
        if listed {
            let j = choose|j: int| 0 <= j < i && (#[trigger] list@[j])@ == image@;
            assert(texts(list@)[j] == image@);
        }
        if texts(list@).contains(image@) {
            let j = choose|j: int| 0 <= j < texts(list@).len() && texts(list@)[j] == image@;
            assert(list@[j]@ == image@);
        }
    }
    if listed {
        match cfg.preset_images.get(image) {
            Some(oci_ref) => return Ok(oci_ref.clone()),
            None => {},
        }
        match cfg.custom_images.get(image) {
            Some(oci_ref) => return Ok(oci_ref.clone()),
            None => {},
        }
    }
    Err(SandboxError::ImageNotAllowed { image: image.to_owned() })
}

} // verus!
