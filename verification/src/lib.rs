//! Verified core of a Windows socket layer: timeout and linger conversions,
//! address layouts, socket option requests and the interpretation of Winsock
//! call results. The calls themselves are made by the surrounding program.

pub mod time;
pub mod error;
pub mod timeout;
pub mod addr;
pub mod sys;
pub mod socket;
