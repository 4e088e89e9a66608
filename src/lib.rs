//! Verified core of a file-metadata scrubber: the per-file cleaning session,
//! traversal selection, office-document property blanking, named-stream
//! selection and report folding.
pub mod calendar;
pub mod cleaner;
pub mod cli;
pub mod error;
pub mod office;
pub mod streams;
pub mod text;
pub mod timestamps;
pub mod types;
pub mod xml;

pub use cleaner::{
    Action, Backend, FileOutcome, FileSession, MetadataCleaner, PathProbe, WalkEntry,
};
pub use calendar::{chrono_lite, is_leap_year};
pub use cli::{Cli, Commands, GlobalOptions};
pub use error::CleanerError;
pub use office::{
    clear_office_xml_properties, is_office_document, is_office_extension, scrub_archive_entry,
    scrub_office_archive, ArchiveEntry,
};
pub use streams::{count_removed, property_stream_paths, stream_delete_target, stream_delete_targets};
pub use text::same_text;
pub use timestamps::{
    filetime_from_unix, filetime_parts, FILETIME_EPOCH_OFFSET_SECS, FILETIME_TICKS_PER_SEC,
    NEUTRAL_FILETIME, NEUTRAL_UNIX_SECS,
};
pub use types::{CleanMode, CleanOptions, CleanReport, FileResult};
pub use xml::{blank_element, clean_app_xml, clean_core_xml};
