//! The Azure AD sign-in and the Outlook calendar behind it.
pub mod ad;
pub mod outlook;

pub use outlook::Outlook;
