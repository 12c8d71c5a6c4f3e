//! A cache of named resources (textures, fonts, ...) that are expensive to
//! build. Each name is built at most once, through a loader bound to the
//! cache, and handed out as a shared, reference-counted handle.
mod cache;
mod font;
mod laws;

pub use cache::{
    add_result, calls_after, get_result, load_result, not_found_suffix, CacheView, ResourceError, ResourceLoader,
    ResourceManager,
};
pub use font::FontDetails;
pub use laws::{
    add_twice_keeps_first, failed_load_leaves_no_entry, get_on_empty_is_not_found,
    load_leaves_other_names_alone, load_twice_is_one_load, miss_calls_loader_once,
};
