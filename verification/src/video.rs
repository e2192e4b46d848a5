//! The extraction unit: a page URL, a quality tier, and a body cache that is
//! filled at most once. Extraction queries run against the cached body.

use vstd::prelude::*;

use crate::pattern::{grep_video_title, grep_video_url, spec_grep_title, spec_grep_url};

verus! {

/// The quality of the requested video.
#[derive(Debug, Clone, Copy, PartialEq, Eq, Structural)]
pub enum Quality {
    /// Standard Definition quality.
    Sd,
    /// High Definition quality.
    Hd,
}

/// All failures this library reports.
#[derive(Debug, Clone, Copy, PartialEq, Eq, Structural)]
pub enum Error {
    /// The transport's redirect policy rejected the fetch.
    Redirect,
    /// The fetch timed out.
    Timeout,
    /// The target page has no matching video or title field, or the URL was
    /// unusable for the transport.
    InvalidUrl,
    /// Any other transport failure.
    Unknown,
}

/// What an extraction query returns for a given cached body: the matched
/// value, or `InvalidUrl` when no pattern matches.
pub open spec fn spec_video_url(body: Seq<char>, quality: Quality) -> Result<Seq<char>, Error> {
    match spec_grep_url(body, quality) {
        Some(v) => Ok(v),
        None => Err(Error::InvalidUrl),
    }
}

/// The title query's result for a given cached body.
pub open spec fn spec_video_title(body: Seq<char>) -> Result<Seq<char>, Error> {
    match spec_grep_title(body) {
        Some(v) => Ok(v),
        None => Err(Error::InvalidUrl),
    }
}

/// The transport-error taxonomy, checked in order: a timeout, then a
/// redirect-policy rejection, then a structurally unusable URL, then unknown.
pub open spec fn spec_classify_transport(timeout: bool, redirect: bool, no_url: bool) -> Error {
    if timeout {
        Error::Timeout
    } else if redirect {
        Error::Redirect
    } else if no_url {
        Error::InvalidUrl
    } else {
        Error::Unknown
    }
}

impl Error {
    /// Maps a transport failure, reported as plain flags by the driver that
    /// performed the fetch, to this library's error taxonomy.
    pub fn from_transport(timeout: bool, redirect: bool, no_url: bool) -> (e: Error)
        ensures
            e == spec_classify_transport(timeout, redirect, no_url),
    {
        if timeout {
            Error::Timeout
        } else if redirect {
            Error::Redirect
        } else if no_url {
            Error::InvalidUrl
        } else {
            Error::Unknown
        }
    }

    /// A human-readable description of the error.
    pub fn description(&self) -> (r: &'static str)
        ensures
            r@ == self.spec_description(),
    {
        match self {
            Error::Redirect => "Error is from a `RedirectPolicy`",
            Error::Timeout => "Error is related to a timeout",
            Error::InvalidUrl => "Target site has no video link",
            Error::Unknown => "Error is unknown",
        }
    }

    /// The text `description` returns for each variant.
    pub open spec fn spec_description(&self) -> Seq<char> {
        match self {
            Error::Redirect => "Error is from a `RedirectPolicy`"@,
            Error::Timeout => "Error is related to a timeout"@,
            Error::InvalidUrl => "Target site has no video link"@,
            Error::Unknown => "Error is unknown"@,
        }
    }
}

/// One extraction request: a page URL, the requested quality, and the page
/// body once it has been fetched. The body is cached at most once and never
/// refreshed for the lifetime of the instance.
#[derive(Debug)]
pub struct FbVideo {
    /// URL of the page that carries the video.
    url: String,
    /// The quality of the requested video.
    quality: Quality,
    /// Markup of the page at `url`, once fetched.
    content: Option<String>,
}

impl FbVideo {
    /// The configured page URL.
    pub closed spec fn spec_url(&self) -> Seq<char> {
        self.url@
    }

    /// The configured quality tier.
    pub closed spec fn spec_quality(&self) -> Quality {
        self.quality
    }

    /// The cached page body, absent until a fetch succeeded.
    pub closed spec fn spec_content(&self) -> Option<Seq<char>> {
        match self.content {
            Some(ref c) => Some(c@),
            None => None,
        }
    }

    /// Generate a new instance. No fetch happens here: the body cache starts
    /// empty.
    pub fn new(url: String, quality: Quality) -> (v: FbVideo)
        ensures
            v.spec_url() == url@,
            v.spec_quality() == quality,
            v.spec_content() is None,
    {
        FbVideo { url, quality, content: None }
    }

    /// The configured page URL, for the driver that performs the fetch.
    pub fn url(&self) -> (r: &str)
        ensures
            r@ == self.spec_url(),
    {
        self.url.as_str()
    }

    /// The configured quality tier.
    pub fn quality(&self) -> (q: Quality)
        ensures
            q == self.spec_quality(),
    {
        self.quality
    }

    /// Whether a fetch is still owed: true exactly until a body is stored.
    /// A driver that fetches only when this holds performs at most one fetch
    /// per instance.
    pub fn needs_fetch(&self) -> (b: bool)
        ensures
            b == (self.spec_content() is None),
    {
        self.content.is_none()
    }

    /// Records the body of a successful fetch. The cache is populated exactly
    /// once: a second store is ruled out. URL and quality are untouched.
    pub fn store_content(&mut self, body: String)
        requires
            old(self).spec_content() is None,
        ensures
            final(self).spec_content() == Some(body@),
            final(self).spec_url() == old(self).spec_url(),
            final(self).spec_quality() == old(self).spec_quality(),
    {
        self.content = Some(body);
    }

    /// Extracts the direct media URL for the configured quality from the
    /// cached body. The result is a function of the cached body and the
    /// quality alone: repeating the query cannot change it.
    pub fn get_video_url(&self) -> (r: Result<String, Error>)
        requires
            self.spec_content() is Some,
        ensures
            ({
                let res = spec_video_url(self.spec_content()->0, self.spec_quality());
                match r {
                    Ok(u) => res == Ok::<Seq<char>, Error>(u@),
                    Err(e) => res == Err::<Seq<char>, Error>(e),
                }
            }),
    {
        match &self.content {
            Some(body) => match grep_video_url(body.as_str(), self.quality) {
                Some(u) => Ok(u),
                None => Err(Error::InvalidUrl),
            },
            None => vstd::pervasive::unreached(),
        }
    }

    /// Extracts the page title from the cached body. The quality tier plays
    /// no part here: the result is a function of the cached body alone.
    pub fn get_video_title(&self) -> (r: Result<String, Error>)
        requires
            self.spec_content() is Some,
        ensures
            ({
                let res = spec_video_title(self.spec_content()->0);
                match r {
                    Ok(t) => res == Ok::<Seq<char>, Error>(t@),
                    Err(e) => res == Err::<Seq<char>, Error>(e),
                }
            }),
    {
        match &self.content {
            Some(body) => match grep_video_title(body.as_str()) {
                Some(t) => Ok(t),
                None => Err(Error::InvalidUrl),
            },
            None => vstd::pervasive::unreached(),
        }
    }
}

} // verus!
