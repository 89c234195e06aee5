//! Process-wide configuration.
//!
//! All identity and store settings are read once at startup, collected into
//! an immutable [`Config`], and passed by reference into the request
//! handlers; nothing in the library reads the environment on its own.

use vstd::prelude::*;

verus! {

/// The read-only settings a running endpoint is configured with.
#[derive(Debug, Clone)]
pub struct Config {
    /// The public base URL the discovery response is built from.
    pub base_url: String,
    /// The store directory media uploads are committed under.
    pub image_upload_path: String,
    /// The author name embedded in every text post's frontmatter.
    pub author_name: String,
    /// The one identity a credential must be bound to.
    pub authorized_site: String,
    /// The content-store repository commits go to.
    pub repository: String,
    /// The store access credential, sent in bearer form.
    pub store_token: String,
}

impl Config {
    /// Collects the six settings into a configuration.
    pub fn new(
        base_url: String,
        image_upload_path: String,
        author_name: String,
        authorized_site: String,
        repository: String,
        store_token: String,
    ) -> (c: Config)
        ensures
            c.base_url@ == base_url@,
            c.image_upload_path@ == image_upload_path@,
            c.author_name@ == author_name@,
            c.authorized_site@ == authorized_site@,
            c.repository@ == repository@,
            c.store_token@ == store_token@,
    {
        Config { base_url, image_upload_path, author_name, authorized_site, repository, store_token }
    }
}

} // verus!
