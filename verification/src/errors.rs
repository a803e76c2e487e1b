use vstd::prelude::*;

verus! {

/// The closed error taxonomy that every failure is reported through.
#[derive(Debug)]
pub enum ImageError {
    IoError { message: String },
    UnsupportedFormat { format: String },
    InvalidDimensions { message: String },
    ProcessingError { message: String },
}

/// Mathematical shape of an [`ImageError`]: the same four kinds over character
/// sequences.
pub enum ErrorView {
    Io(Seq<char>),
    Unsupported(Seq<char>),
    Invalid(Seq<char>),
    Processing(Seq<char>),
}

impl View for ImageError {
    type V = ErrorView;

    open spec fn view(&self) -> ErrorView {
        match self {
            ImageError::IoError { message } => ErrorView::Io(message@),
            ImageError::UnsupportedFormat { format } => ErrorView::Unsupported(format@),
            ImageError::InvalidDimensions { message } => ErrorView::Invalid(message@),
            ImageError::ProcessingError { message } => ErrorView::Processing(message@),
        }
    }
}

/// How a codec failure is classified before it is mapped into the taxonomy:
/// a file/IO-rooted cause, an unrecognized image format, or anything else.
#[derive(Clone, Copy, Debug, PartialEq, Eq, Structural)]
pub enum CodecFailureKind {
    Io,
    UnrecognizedFormat,
    Other,
}

/// Maps a classified codec failure and its message into the error taxonomy:
/// IO-rooted causes become `IoError`, an unrecognized format becomes
/// `UnsupportedFormat`, everything else becomes `ProcessingError`.
pub fn codec_error(kind: CodecFailureKind, message: String) -> (r: ImageError)
    ensures
        kind == CodecFailureKind::Io ==> r@ == ErrorView::Io(message@),
        kind == CodecFailureKind::UnrecognizedFormat ==> r@ == ErrorView::Unsupported(message@),
        kind == CodecFailureKind::Other ==> r@ == ErrorView::Processing(message@),
        !(r@ matches ErrorView::Invalid(_)),
{
    match kind {
        CodecFailureKind::Io => ImageError::IoError { message },
        CodecFailureKind::UnrecognizedFormat => ImageError::UnsupportedFormat { format: message },
        CodecFailureKind::Other => ImageError::ProcessingError { message },
    }
}

} // verus!
