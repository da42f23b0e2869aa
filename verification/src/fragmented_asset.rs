//! Media-extension properties of an asset.

use vstd::prelude::*;

verus! {

/// Media-extension properties as the bridge reports them.
#[derive(Debug, Clone, PartialEq, Eq)]
pub struct MediaExtensionPropertiesPayload {
    /// Name of the containing bundle.
    pub containing_bundle_name: Option<String>,
    /// URL of the containing bundle.
    pub containing_bundle_url: Option<String>,
    /// Identifier of the extension.
    pub extension_identifier: Option<String>,
    /// Name of the extension.
    pub extension_name: Option<String>,
    /// URL of the extension.
    pub extension_url: Option<String>,
}

/// Media-extension properties of an asset.
#[derive(Debug, Clone, PartialEq, Eq)]
pub struct MediaExtensionPropertiesInfo {
    /// Name of the containing bundle.
    pub containing_bundle_name: Option<String>,
    /// URL of the containing bundle.
    pub containing_bundle_url: Option<String>,
    /// Identifier of the extension.
    pub extension_identifier: Option<String>,
    /// Name of the extension.
    pub extension_name: Option<String>,
    /// URL of the extension.
    pub extension_url: Option<String>,
}

impl From<MediaExtensionPropertiesPayload> for MediaExtensionPropertiesInfo {
    fn from(value: MediaExtensionPropertiesPayload) -> (r: Self) {
        MediaExtensionPropertiesInfo {
            containing_bundle_name: value.containing_bundle_name,
            containing_bundle_url: value.containing_bundle_url,
            extension_identifier: value.extension_identifier,
            extension_name: value.extension_name,
            extension_url: value.extension_url,
        }
    }
}

impl vstd::std_specs::convert::FromSpecImpl<MediaExtensionPropertiesPayload> for MediaExtensionPropertiesInfo {
    open spec fn obeys_from_spec() -> bool {
        true
    }

    open spec fn from_spec(v: MediaExtensionPropertiesPayload) -> Self {
        MediaExtensionPropertiesInfo {
            containing_bundle_name: v.containing_bundle_name,
            containing_bundle_url: v.containing_bundle_url,
            extension_identifier: v.extension_identifier,
            extension_name: v.extension_name,
            extension_url: v.extension_url,
        }
    }
}

} // verus!
