//! The manifest in its two shapes.
//!
//! In memory a manifest carries its settings as an ordered sequence; in the
//! document the settings stand as a mapping from title to definition. The
//! conversions between the two compose the settings transcoder; reading and
//! writing the document text itself happens outside the library, which only
//! frames the text with the document-start marker.
use vstd::prelude::*;

verus! {

use vstd::string::StringExecFns;
use crate::settings::{Setting, SettingDef, decode_settings, encode_settings, encoded, injected,
    settings_sorted, unique_titles, lemma_settings_round_trip};

/// The on-disk description of one application version under edit.
#[derive(Debug, Clone, PartialEq, Eq)]
pub struct EdgeAppManifest {
    pub app_id: String,
    pub user_version: String,
    pub description: String,
    pub icon: String,
    pub author: String,
    pub homepage_url: String,
    pub settings: Vec<Setting>,
}

/// The manifest in document shape: the same scalar fields, the settings as
/// map entries in document order.
#[derive(Debug, Clone, PartialEq, Eq)]
pub struct ManifestDoc {
    pub app_id: String,
    pub user_version: String,
    pub description: String,
    pub icon: String,
    pub author: String,
    pub homepage_url: String,
    pub settings: Vec<(String, SettingDef)>,
}

impl EdgeAppManifest {
    /// The document shape of this manifest: scalar fields as they stand,
    /// settings encoded as a mapping.
    pub fn to_doc(&self) -> (r: ManifestDoc)
        ensures
            r.app_id == self.app_id,
            r.user_version == self.user_version,
            r.description == self.description,
            r.icon == self.icon,
            r.author == self.author,
            r.homepage_url == self.homepage_url,
            r.settings@ == encoded(self.settings@),
    {
        ManifestDoc {
            app_id: self.app_id.clone(),
            user_version: self.user_version.clone(),
            description: self.description.clone(),
            icon: self.icon.clone(),
            author: self.author.clone(),
            homepage_url: self.homepage_url.clone(),
            settings: encode_settings(&self.settings),
        }
    }

    /// The manifest a document decodes to: scalar fields as they stand,
    /// settings decoded and sorted by title.
    pub fn from_doc(doc: ManifestDoc) -> (r: EdgeAppManifest)
        ensures
            r.app_id == doc.app_id,
            r.user_version == doc.user_version,
            r.description == doc.description,
            r.icon == doc.icon,
            r.author == doc.author,
            r.homepage_url == doc.homepage_url,
            settings_sorted(r.settings@),
            r.settings@.to_multiset() == injected(doc.settings@).to_multiset(),
            r.settings@.len() == doc.settings@.len(),
    {
        EdgeAppManifest {
            app_id: doc.app_id,
            user_version: doc.user_version,
            description: doc.description,
            icon: doc.icon,
            author: doc.author,
            homepage_url: doc.homepage_url,
            settings: decode_settings(doc.settings),
        }
    }
}

impl Default for EdgeAppManifest {
    /// An empty manifest: every field blank, no settings.
    fn default() -> (r: EdgeAppManifest)
        ensures
            r.app_id@ == Seq::<char>::empty(),
            r.user_version@ == Seq::<char>::empty(),
            r.description@ == Seq::<char>::empty(),
            r.icon@ == Seq::<char>::empty(),
            r.author@ == Seq::<char>::empty(),
            r.homepage_url@ == Seq::<char>::empty(),
            r.settings@ == Seq::<Setting>::empty(),
    {
        EdgeAppManifest {
            app_id: String::new(),
            user_version: String::new(),
            description: String::new(),
            icon: String::new(),
            author: String::new(),
            homepage_url: String::new(),
            settings: Vec::new(),
        }
    }
}

/// The text a manifest file holds: a document-start marker line, then the
/// document body.
pub fn framed_document(body: &str) -> (r: String)
    ensures
        r@ == "---\n"@ + body@,
{
    let mut out = String::new();
    out.append("---\n");
    out.append(body);
    proof {
        assert(out@ =~= "---\n"@ + body@);
    }
    out
}

/// Saving and loading round-trips a manifest: when `m`'s settings are
/// sorted by title with unique titles, any manifest `m2` read back from
/// `m`'s document shape — same scalar fields, settings decoded from the
/// encoded entries — is field-for-field equal to `m`.
pub proof fn lemma_manifest_round_trip(m: EdgeAppManifest, m2: EdgeAppManifest)
    requires
        settings_sorted(m.settings@),
        unique_titles(m.settings@),
        m2.app_id == m.app_id,
        m2.user_version == m.user_version,
        m2.description == m.description,
        m2.icon == m.icon,
        m2.author == m.author,
        m2.homepage_url == m.homepage_url,
        settings_sorted(m2.settings@),
        m2.settings@.to_multiset() == injected(encoded(m.settings@)).to_multiset(),
    ensures
        m2.settings@ == m.settings@,
{
    lemma_settings_round_trip(m.settings@, m2.settings@);
}

} // verus!
