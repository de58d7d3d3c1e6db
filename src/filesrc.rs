//! A file source: the file's location, given as a URI, and the read
//! position. Opening, seeking and reading the file are left to the caller,
//! which reports each outcome back.
use vstd::prelude::*;
use std::path::PathBuf;
use url::Url;
use crate::flow::GstFlowReturn;

verus! {

#[verifier::external_type_specification]
#[verifier::external_body]
pub struct ExUrl(Url);

#[verifier::external_type_specification]
#[verifier::external_body]
pub struct ExPathBuf(PathBuf);

/// Whether text `s` parses as a URL.
pub uninterp spec fn uri_parses(s: Seq<char>) -> bool;

/// Relies on `url::Url::parse`: parses `s` as a URL; whether it succeeds
/// depends on the text alone.
#[verifier::external_body]
fn parse_url(s: &str) -> (r: Option<Url>)
    ensures
        r is Some == uri_parses(s@),
{
    Url::parse(s).ok()
}

/// Relies on `url::Url::to_file_path`: the local path that a URL names,
/// if it names one.
#[verifier::external_body]
fn url_to_file_path(u: &Url) -> (r: Option<PathBuf>) {
    u.to_file_path().ok()
}

/// Relies on `url::Url::from_file_path`: the file URL of a path, as text,
/// if the path can have one.
#[verifier::external_body]
fn file_url_of(p: &PathBuf) -> (r: Option<String>) {
    Url::from_file_path(p).map(String::from).ok()
}

/// What to do before reading at a requested offset.
#[derive(Clone, Copy, Debug, PartialEq, Eq, Structural)]
pub enum FillStep {
    /// Seek the file to this offset first, then report it with `seeked`.
    Seek(u64),
    /// Read at the current position.
    Read,
}

/// State of a file source.
#[derive(Debug)]
pub struct FileSrc {
    /// Path of the file to read, once a file URI has been set.
    pub location: Option<PathBuf>,
    /// Offset in the file at which the next read starts.
    pub position: u64,
}

impl FileSrc {
    /// A source with no location, at position zero.
    pub fn new() -> (r: FileSrc)
        ensures
            r.location is None,
            r.position == 0,
    {
        FileSrc { location: None, position: 0 }
    }

    /// Sets the location from a file URI, or clears it when `uri_str` is
    /// `None`. Returns whether a location was cleared or set; a URI that
    /// does not parse, or names no local file, leaves no location.
    pub fn set_uri(&mut self, uri_str: &Option<String>) -> (r: bool)
        ensures
            uri_str is None ==> r && final(self).location is None,
            uri_str is Some ==> r == final(self).location is Some,
            uri_str matches Some(s) && !uri_parses(s@) ==> !r && final(self).location is None,
            final(self).position == old(self).position,
    {
        match uri_str {
            None => {
                self.location = None;
                true
            },
            Some(s) => {
                let path = match parse_url(s.as_str()) {
                    Some(u) => url_to_file_path(&u),
                    None => None,
                };
                match path {
                    Some(p) => {
                        self.location = Some(p);
                        true
                    },
                    None => {
                        self.location = None;
                        false
                    },
                }
            },
        }
    }

    /// The file URI of the location, if there is one and it has one.
    pub fn get_uri(&self) -> (r: Option<String>)
        ensures
            self.location is None ==> r is None,
    {
        match &self.location {
            None => None,
            Some(location) => file_url_of(location),
        }
    }

    /// Whether the source can seek: it always can.
    pub fn is_seekable(&self) -> (r: bool)
        ensures
            r,
    {
        true
    }

    /// Starts over at position zero. Returns whether there is a location
    /// to open.
    pub fn start(&mut self) -> (r: bool)
        ensures
            final(self).position == 0,
            final(self).location == old(self).location,
            r == old(self).location is Some,
    {
        self.position = 0;
        self.location.is_some()
    }

    /// Stops, back at position zero.
    pub fn stop(&mut self) -> (r: bool)
        ensures
            final(self).position == 0,
            final(self).location == old(self).location,
            r,
    {
        self.position = 0;
        true
    }

    /// What to do before reading at `offset`: seek there, unless the
    /// position is already `offset`.
    pub fn fill_step(&self, offset: u64) -> (r: FillStep)
        ensures
            self.position != offset ==> r == FillStep::Seek(offset),
            self.position == offset ==> r == FillStep::Read,
    {
        if self.position != offset {
            FillStep::Seek(offset)
        } else {
            FillStep::Read
        }
    }

    /// Records a seek to `offset`.
    pub fn seeked(&mut self, offset: u64)
        ensures
            final(self).position == offset,
            final(self).location == old(self).location,
    {
        self.position = offset;
    }

    /// Records a read of `size` bytes at the current position, and returns
    /// `size`; a position past the largest `u64` is an error and leaves the
    /// position as it was.
    pub fn read_done(&mut self, size: usize) -> (r: Result<usize, GstFlowReturn>)
        ensures
            old(self).position + size <= u64::MAX ==> r == Ok::<usize, GstFlowReturn>(size)
                && final(self).position == old(self).position + size,
            old(self).position + size > u64::MAX ==> r == Err::<usize, GstFlowReturn>(
                GstFlowReturn::Error,
            ) && final(self).position == old(self).position,
            final(self).location == old(self).location,
    {
        let n = size as u64;
        match self.position.checked_add(n) {
            Some(p) => {
                self.position = p;
                Ok(size)
            },
            None => Err(GstFlowReturn::Error),
        }
    }
}

} // verus!
