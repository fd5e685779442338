use vstd::prelude::*;
use vstd::string::StringExecFns;

verus! {

/// An I/O failure reported by the operating system. Nothing is known of its
/// contents; it is only carried through.
#[verifier::external_type_specification]
#[verifier::external_body]
pub struct ExIoError(std::io::Error);

/// What can go wrong in the monitor.
#[derive(Debug)]
pub enum AppError {
    /// A collector could not be built, or one sample failed.
    CollectionError(String),
    /// A value could not be published because the receiving end is gone.
    ChannelSendError(String),
    /// An operating-system I/O failure.
    IoError(std::io::Error),
}

/// The `Display` text of a `std::io::Error`. Nothing is claimed of it.
#[verifier::external_body]
fn io_error_text(error: &std::io::Error) -> (text: String) {
    format!("{}", error)
}

impl AppError {
    /// What stands before the payload in the text of an error of each family.
    pub open spec fn prefix(self) -> Seq<char> {
        match self {
            AppError::CollectionError(_) => "Data Collection Error: "@,
            AppError::ChannelSendError(_) => "Channel send error: "@,
            AppError::IoError(_) => "I/O error: "@,
        }
    }

    /// The error as text: the family's prefix, then the message carried, or
    /// for an I/O failure the operating system's own description.
    pub fn message(&self) -> (text: String)
        ensures
            self.prefix().is_prefix_of(text@),
            self matches AppError::CollectionError(detail) ==> text@ == self.prefix() + detail@,
            self matches AppError::ChannelSendError(detail) ==> text@ == self.prefix() + detail@,
    {
        match self {
            AppError::CollectionError(detail) => String::from_str(
                "Data Collection Error: ",
            ).concat(detail.as_str()),
            AppError::ChannelSendError(detail) => String::from_str("Channel send error: ").concat(
                detail.as_str(),
            ),
            AppError::IoError(source) => {
                let detail = io_error_text(source);
                String::from_str("I/O error: ").concat(detail.as_str())
            },
        }
    }

    /// Whether this is a collection error whose message opens with `context`.
    pub open spec fn reports(self, context: Seq<char>) -> bool {
        self matches AppError::CollectionError(message) && context.is_prefix_of(message@)
    }

    /// A collection error whose message is `context` followed by `detail`.
    pub fn collection(context: &str, detail: &str) -> (error: AppError)
        ensures
            error matches AppError::CollectionError(message) && message@ == context@ + detail@,
            error.reports(context@),
    {
        let error = AppError::CollectionError(String::from_str(context).concat(detail));
        proof {
            assert((context@ + detail@).subrange(0, context@.len() as int) =~= context@);
        }
        error
    }
}

} // verus!
