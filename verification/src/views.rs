//! The resource view types.
//!
//! Each type wraps one JSON collection the backend returned and binds it to
//! a fixed triple of column headers, field keys and per-field transform for
//! the generic formatter; it adds no data of its own.
use vstd::prelude::*;

verus! {

use crate::format::{Formatter, FormatterValue, OutputType, Transform, format_value,
    spec_format_value};
use crate::json::JsonValue;

/// Edge applications: identifier and title.
pub struct EdgeApps {
    pub value: JsonValue,
}

impl EdgeApps {
    pub fn new(value: JsonValue) -> (r: Self)
        ensures
            r.value == value,
    {
        Self { value }
    }
}

impl FormatterValue for EdgeApps {
    open spec fn spec_value(&self) -> JsonValue {
        self.value
    }

    fn value(&self) -> (r: &JsonValue) {
        &self.value
    }
}

impl Formatter for EdgeApps {
    open spec fn spec_format(&self, output_type: OutputType) -> Seq<char> {
        spec_format_value(
            output_type,
            seq!["Id"@, "Title"@],
            seq!["id"@, "name"@],
            self.value,
            None,
        )
    }

    fn format(&self, output_type: OutputType) -> (r: String) {
        let cols: Vec<&str> = vec!["Id", "Title"];
        let fields: Vec<&str> = vec!["id", "name"];
        proof {
            assert(cols.deep_view() =~= seq!["Id"@, "Title"@]);
            assert(fields.deep_view() =~= seq!["id"@, "name"@]);
        }
        format_value(output_type, cols, fields, self, None)
    }
}

/// Versions of one edge application: revision, description, published flag.
pub struct EdgeAppVersions {
    pub value: JsonValue,
}

impl EdgeAppVersions {
    pub fn new(value: JsonValue) -> (r: Self)
        ensures
            r.value == value,
    {
        Self { value }
    }
}

impl FormatterValue for EdgeAppVersions {
    open spec fn spec_value(&self) -> JsonValue {
        self.value
    }

    fn value(&self) -> (r: &JsonValue) {
        &self.value
    }
}

impl Formatter for EdgeAppVersions {
    open spec fn spec_format(&self, output_type: OutputType) -> Seq<char> {
        spec_format_value(
            output_type,
            seq!["Revision"@, "Description"@, "Published"@],
            seq!["revision"@, "description"@, "published"@],
            self.value,
            Some(Transform::Versions),
        )
    }

    fn format(&self, output_type: OutputType) -> (r: String) {
        let cols: Vec<&str> = vec!["Revision", "Description", "Published"];
        let fields: Vec<&str> = vec!["revision", "description", "published"];
        proof {
            assert(cols.deep_view() =~= seq!["Revision"@, "Description"@, "Published"@]);
            assert(fields.deep_view() =~= seq!["revision"@, "description"@, "published"@]);
        }
        format_value(output_type, cols, fields, self, Some(Transform::Versions))
    }
}

/// Settings of one edge application, with their current values.
pub struct EdgeAppSettings {
    pub value: JsonValue,
}

impl EdgeAppSettings {
    pub fn new(value: JsonValue) -> (r: Self)
        ensures
            r.value == value,
    {
        Self { value }
    }
}

impl FormatterValue for EdgeAppSettings {
    open spec fn spec_value(&self) -> JsonValue {
        self.value
    }

    fn value(&self) -> (r: &JsonValue) {
        &self.value
    }
}

impl Formatter for EdgeAppSettings {
    open spec fn spec_format(&self, output_type: OutputType) -> Seq<char> {
        spec_format_value(
            output_type,
            seq!["Title"@, "Value"@, "Default value"@, "Optional"@, "Type"@, "Help text"@],
            seq!["title"@, "value"@, "default_value"@, "optional"@, "type"@, "help_text"@],
            self.value,
            Some(Transform::Settings),
        )
    }

    fn format(&self, output_type: OutputType) -> (r: String) {
        let cols: Vec<&str> = vec!["Title", "Value", "Default value", "Optional", "Type",
            "Help text"];
        let fields: Vec<&str> = vec!["title", "value", "default_value", "optional", "type",
            "help_text"];
        proof {
            assert(cols.deep_view() =~= seq![
                "Title"@,
                "Value"@,
                "Default value"@,
                "Optional"@,
                "Type"@,
                "Help text"@,
            ]);
            assert(fields.deep_view() =~= seq![
                "title"@,
                "value"@,
                "default_value"@,
                "optional"@,
                "type"@,
                "help_text"@,
            ]);
        }
        format_value(output_type, cols, fields, self, Some(Transform::Settings))
    }
}

/// Assets: identifier, title, type and processing status.
pub struct Assets {
    pub value: JsonValue,
}

impl Assets {
    pub fn new(value: JsonValue) -> (r: Self)
        ensures
            r.value == value,
    {
        Self { value }
    }
}

impl FormatterValue for Assets {
    open spec fn spec_value(&self) -> JsonValue {
        self.value
    }

    fn value(&self) -> (r: &JsonValue) {
        &self.value
    }
}

impl Formatter for Assets {
    open spec fn spec_format(&self, output_type: OutputType) -> Seq<char> {
        spec_format_value(
            output_type,
            seq!["Id"@, "Title"@, "Type"@, "Status"@],
            seq!["id"@, "title"@, "type"@, "status"@],
            self.value,
            None,
        )
    }

    fn format(&self, output_type: OutputType) -> (r: String) {
        let cols: Vec<&str> = vec!["Id", "Title", "Type", "Status"];
        let fields: Vec<&str> = vec!["id", "title", "type", "status"];
        proof {
            assert(cols.deep_view() =~= seq!["Id"@, "Title"@, "Type"@, "Status"@]);
            assert(fields.deep_view() =~= seq!["id"@, "title"@, "type"@, "status"@]);
        }
        format_value(output_type, cols, fields, self, None)
    }
}

/// Screens: identity, hardware, sync state, last ping and uptime.
pub struct Screens {
    pub value: JsonValue,
}

impl Screens {
    pub fn new(value: JsonValue) -> (r: Self)
        ensures
            r.value == value,
    {
        Self { value }
    }
}

impl FormatterValue for Screens {
    open spec fn spec_value(&self) -> JsonValue {
        self.value
    }

    fn value(&self) -> (r: &JsonValue) {
        &self.value
    }
}

impl Formatter for Screens {
    open spec fn spec_format(&self, output_type: OutputType) -> Seq<char> {
        spec_format_value(
            output_type,
            seq!["Id"@, "Name"@, "Hardware Version"@, "In Sync"@, "Last Ping"@, "Uptime"@],
            seq!["id"@, "name"@, "hardware_version"@, "in_sync"@, "last_ping"@, "uptime"@],
            self.value,
            Some(Transform::Screens),
        )
    }

    fn format(&self, output_type: OutputType) -> (r: String) {
        let cols: Vec<&str> = vec!["Id", "Name", "Hardware Version", "In Sync", "Last Ping",
            "Uptime"];
        let fields: Vec<&str> = vec!["id", "name", "hardware_version", "in_sync", "last_ping",
            "uptime"];
        proof {
            assert(cols.deep_view() =~= seq![
                "Id"@,
                "Name"@,
                "Hardware Version"@,
                "In Sync"@,
                "Last Ping"@,
                "Uptime"@,
            ]);
            assert(fields.deep_view() =~= seq![
                "id"@,
                "name"@,
                "hardware_version"@,
                "in_sync"@,
                "last_ping"@,
                "uptime"@,
            ]);
        }
        format_value(output_type, cols, fields, self, Some(Transform::Screens))
    }
}

/// Playlists: identifier and title.
pub struct Playlists {
    pub value: JsonValue,
}

impl Playlists {
    pub fn new(value: JsonValue) -> (r: Self)
        ensures
            r.value == value,
    {
        Self { value }
    }
}

impl FormatterValue for Playlists {
    open spec fn spec_value(&self) -> JsonValue {
        self.value
    }

    fn value(&self) -> (r: &JsonValue) {
        &self.value
    }
}

impl Formatter for Playlists {
    open spec fn spec_format(&self, output_type: OutputType) -> Seq<char> {
        spec_format_value(
            output_type,
            seq!["Id"@, "Title"@],
            seq!["id"@, "title"@],
            self.value,
            None,
        )
    }

    fn format(&self, output_type: OutputType) -> (r: String) {
        let cols: Vec<&str> = vec!["Id", "Title"];
        let fields: Vec<&str> = vec!["id", "title"];
        proof {
            assert(cols.deep_view() =~= seq!["Id"@, "Title"@]);
            assert(fields.deep_view() =~= seq!["id"@, "title"@]);
        }
        format_value(output_type, cols, fields, self, None)
    }
}

/// Entries of one playlist: asset identifier and duration.
pub struct PlaylistItems {
    pub value: JsonValue,
}

impl PlaylistItems {
    pub fn new(value: JsonValue) -> (r: Self)
        ensures
            r.value == value,
    {
        Self { value }
    }
}

impl FormatterValue for PlaylistItems {
    open spec fn spec_value(&self) -> JsonValue {
        self.value
    }

    fn value(&self) -> (r: &JsonValue) {
        &self.value
    }
}

impl Formatter for PlaylistItems {
    open spec fn spec_format(&self, output_type: OutputType) -> Seq<char> {
        spec_format_value(
            output_type,
            seq!["Asset Id"@, "Duration"@],
            seq!["asset_id"@, "duration"@],
            self.value,
            Some(Transform::Durations),
        )
    }

    fn format(&self, output_type: OutputType) -> (r: String) {
        let cols: Vec<&str> = vec!["Asset Id", "Duration"];
        let fields: Vec<&str> = vec!["asset_id", "duration"];
        proof {
            assert(cols.deep_view() =~= seq!["Asset Id"@, "Duration"@]);
            assert(fields.deep_view() =~= seq!["asset_id"@, "duration"@]);
        }
        format_value(output_type, cols, fields, self, Some(Transform::Durations))
    }
}

} // verus!
