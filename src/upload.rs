use vstd::prelude::*;

verus! {

/// The name of the multipart part that carries the screenshot.
pub const FILE_PART: &'static str = "file";

/// Where the current screenshot is kept, relative to the working directory.
pub const SCREENSHOT_PATH: &'static str = "uploads/screenshot.png";

/// The directory that holds the screenshot and is served to viewers.
pub const SCREENSHOT_DIR: &'static str = "uploads";

/// The largest request body accepted, in bytes (50 MiB).
pub const MAX_BODY_BYTES: usize = 50 * 1024 * 1024;

/// Why an upload was not stored.
#[derive(PartialEq, Eq, Structural, Clone, Copy, Debug)]
pub enum UploadError {
    /// The request held no readable part named `file`.
    MissingFilePart,
    /// The multipart body could not be read.
    MalformedBody,
    /// The body went over the size limit.
    BodyTooLarge,
    /// The image could not be written to storage.
    WriteFailed,
}

/// Why reading the multipart body went wrong.
#[derive(PartialEq, Eq, Structural, Clone, Copy, Debug)]
pub enum BodyFault {
    /// The body went over the size limit.
    TooLarge,
    /// The body is not valid multipart data.
    Malformed,
}

/// What reading the next piece of a multipart body gave.
pub enum UploadEvent {
    /// A part named `file`, read whole.
    FilePart(Vec<u8>),
    /// A part named `file` whose bytes could not be read.
    UnreadableFilePart(BodyFault),
    /// A part with another name, or none; it is skipped.
    OtherPart,
    /// The next part could not be reached.
    BodyError(BodyFault),
    /// The body has no more parts.
    End,
}

/// What an upload request has delivered so far.
pub struct UploadProgress {
    image: Option<Vec<u8>>,
    too_large: bool,
    malformed: bool,
}

/// The image held after accepting one file part `part`: it replaces the
/// earlier image whole.
pub open spec fn after_part(image: Option<Seq<u8>>, part: Seq<u8>) -> Option<Seq<u8>> {
    Some(part)
}

/// The image held after accepting each of `parts` in order, one at a time.
pub open spec fn after_parts(image: Option<Seq<u8>>, parts: Seq<Seq<u8>>) -> Option<Seq<u8>>
    decreases parts.len(),
{
    if parts.len() == 0 {
        image
    } else {
        after_part(after_parts(image, parts.drop_last()), parts.last())
    }
}

/// Whether a part's name marks it as the screenshot.
pub open spec fn names_file_part(name: Option<Seq<char>>) -> bool {
    name == Some(FILE_PART@)
}

/// Whether the part called `name` carries the screenshot. Other parts are
/// skipped unread.
pub fn is_file_part(name: &Option<String>) -> (r: bool)
    ensures
        r == names_file_part(
            match name {
                Some(n) => Some(n@),
                None => None,
            },
        ),
{
    match name {
        Some(n) => {
            let expected = String::from_str(FILE_PART);
            *n == expected
        },
        None => false,
    }
}

/// The outcome that storing an image had: `written` is whether storage
/// accepted it.
pub fn write_outcome(written: bool) -> (r: Result<(), UploadError>)
    ensures
        written ==> r is Ok,
        !written ==> r == Err::<(), UploadError>(UploadError::WriteFailed),
{
    if written {
        Ok(())
    } else {
        Err(UploadError::WriteFailed)
    }
}

impl UploadError {
    /// The HTTP status that reports this error: the client's fault for a
    /// missing part or an unreadable body, too large for an oversized body,
    /// the server's for a failed write.
    pub fn status_code(&self) -> (r: u16)
        ensures
            *self == UploadError::MissingFilePart ==> r == 400,
            *self == UploadError::MalformedBody ==> r == 400,
            *self == UploadError::BodyTooLarge ==> r == 413,
            *self == UploadError::WriteFailed ==> r == 500,
    {
        match self {
            UploadError::MissingFilePart => 400,
            UploadError::MalformedBody => 400,
            UploadError::BodyTooLarge => 413,
            UploadError::WriteFailed => 500,
        }
    }
}

impl UploadProgress {
    /// The image to store, if a file part has been read.
    pub closed spec fn image(&self) -> Option<Seq<u8>> {
        match self.image {
            Some(v) => Some(v@),
            None => None,
        }
    }

    /// Whether the body went over the size limit at some point.
    pub closed spec fn too_large(&self) -> bool {
        self.too_large
    }

    /// Whether the body was found not to be valid multipart data.
    pub closed spec fn malformed(&self) -> bool {
        self.malformed
    }

    /// The state at the start of a request: nothing read, nothing failed.
    pub fn new() -> (r: UploadProgress)
        ensures
            r.image() is None,
            !r.too_large(),
            !r.malformed(),
    {
        UploadProgress { image: None, too_large: false, malformed: false }
    }

    /// Takes in what reading the body gave next, and says whether to go on
    /// reading. A file part read whole replaces any earlier one; a part that
    /// could not be read is skipped; a failure to reach the next part, or the
    /// end of the body, stops the reading. Each fault is recorded.
    pub fn step(&mut self, event: UploadEvent) -> (more: bool)
        ensures
            match event {
                UploadEvent::FilePart(d) => {
                    &&& final(self).image() == after_part(old(self).image(), d@)
                    &&& final(self).too_large() == old(self).too_large()
                    &&& final(self).malformed() == old(self).malformed()
                    &&& more
                },
                UploadEvent::UnreadableFilePart(f) => {
                    &&& final(self).image() == old(self).image()
                    &&& final(self).too_large() == (old(self).too_large() || f
                        == BodyFault::TooLarge)
                    &&& final(self).malformed() == (old(self).malformed() || f
                        == BodyFault::Malformed)
                    &&& more
                },
                UploadEvent::OtherPart => {
                    &&& final(self).image() == old(self).image()
                    &&& final(self).too_large() == old(self).too_large()
                    &&& final(self).malformed() == old(self).malformed()
                    &&& more
                },
                UploadEvent::BodyError(f) => {
                    &&& final(self).image() == old(self).image()
                    &&& final(self).too_large() == (old(self).too_large() || f
                        == BodyFault::TooLarge)
                    &&& final(self).malformed() == (old(self).malformed() || f
                        == BodyFault::Malformed)
                    &&& !more
                },
                UploadEvent::End => {
                    &&& final(self).image() == old(self).image()
                    &&& final(self).too_large() == old(self).too_large()
                    &&& final(self).malformed() == old(self).malformed()
                    &&& !more
                },
            },
    {
        match event {
            UploadEvent::FilePart(d) => {
                self.image = Some(d);
                true
            },
            UploadEvent::UnreadableFilePart(f) => {
                self.note_fault(f);
                true
            },
            UploadEvent::OtherPart => true,
            UploadEvent::BodyError(f) => {
                self.note_fault(f);
                false
            },
            UploadEvent::End => false,
        }
    }

    fn note_fault(&mut self, f: BodyFault)
        ensures
            final(self).image() == old(self).image(),
            final(self).too_large() == (old(self).too_large() || f == BodyFault::TooLarge),
            final(self).malformed() == (old(self).malformed() || f == BodyFault::Malformed),
    {
        match f {
            BodyFault::TooLarge => self.too_large = true,
            BodyFault::Malformed => self.malformed = true,
        }
    }

    /// Ends the request: the image to store, or why there is none. A body
    /// over the size limit stores nothing, even a file part read before the
    /// limit was reached. Otherwise a file part read whole is stored even
    /// when the body failed after it.
    pub fn finish(self) -> (r: Result<Vec<u8>, UploadError>)
        ensures
            self.too_large() ==> r == Err::<Vec<u8>, UploadError>(UploadError::BodyTooLarge),
            !self.too_large() && self.image() is Some ==> r is Ok && r->Ok_0@
                == self.image()->0,
            !self.too_large() && self.image() is None && self.malformed() ==> r == Err::<
                Vec<u8>,
                UploadError,
            >(UploadError::MalformedBody),
            !self.too_large() && self.image() is None && !self.malformed() ==> r == Err::<
                Vec<u8>,
                UploadError,
            >(UploadError::MissingFilePart),
    {
        if self.too_large {
            Err(UploadError::BodyTooLarge)
        } else {
            match self.image {
                Some(v) => Ok(v),
                None => if self.malformed {
                    Err(UploadError::MalformedBody)
                } else {
                    Err(UploadError::MissingFilePart)
                },
            }
        }
    }
}

/// Of several file parts accepted one at a time, the last one is the image
/// kept, whatever came before it: never an earlier part or a mixture.
pub proof fn lemma_last_file_part_wins(image: Option<Seq<u8>>, parts: Seq<Seq<u8>>)
    requires
        parts.len() > 0,
    ensures
        after_parts(image, parts) == Some(parts.last()),
{
}

} // verus!
