//! Windows-style 32-bit status codes as structured values.
//!
//! A status code is a 32-bit word laid out as follows:
//! ```text
//!  3 3 2 2 2 2 2 2 2 2 2 2 1 1 1 1 1 1 1 1 1 1
//!  1 0 9 8 7 6 5 4 3 2 1 0 9 8 7 6 5 4 3 2 1 0 9 8 7 6 5 4 3 2 1 0
//! +---+-+-+-----------------------+-------------------------------+
//! |Sev|C|R|     Facility          |               Code            |
//! +---+-+-+-----------------------+-------------------------------+
//! ```
//! where `Sev` is the severity (00 success, 01 informational, 10 warning,
//! 11 error), `C` the customer flag, `R` a reserved bit, `Facility` the
//! subsystem and `Code` the facility's status code.
//!
//! HRESULTs use a different layout of the same 32 bits:
//! ```text
//! +-+-+-+-+-+---------------------+-------------------------------+
//! |S|R|C|N|r|    Facility         |               Code            |
//! +-+-+-+-+-+---------------------+-------------------------------+
//! ```
//! where `S` tells success from failure, `R` and `C` are reserved parts of the
//! facility (NT's second severity bit and its `C` field), `N` marks a mapped NT
//! status value and `r` is reserved for internal use (message ids for display
//! strings).
//!
//! Only the first layout is computed here, by [`ErrorCode::value`]; the HRESULT
//! layout is documented for reference and is not composed by this crate.




mod error_code;
mod facility;
pub mod layout;
mod severity;

pub use error_code::{ErrorCode, ErrorCodeMemberError, ErrorCodeView};
pub use facility::{Facility, FacilityView};
pub use severity::{Severity, SeverityView};
