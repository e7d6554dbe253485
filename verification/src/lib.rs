//! A parser for the [radiotap](http://www.radiotap.org/) capture format.
//!
//! A radiotap header is prepended to a raw IEEE 802.11 frame by the capturing
//! driver. It starts with a version, a length and one or more presence words,
//! whose bits say which fields follow; each field is aligned to its own
//! alignment.
//!
//! # Examples
//!
//! ### Parsing all fields
//!
//! The easiest way to use this crate is to parse a slice of bytes into a
//! [`Header`] struct.
//!
//! ```
//! // a capture off the wire or from a pcap file
//! let capture = &[0, 0, 0xd, 0x0, 0x5, 0, 0, 0, 0x78, 0x56, 0x34, 0x12, 0, 0, 0, 0, 0x30];
//! // parse the radiotap header from the capture into a `Header` struct
//! let header = radiotap::parse(capture).unwrap();
//!
//! // get the length of the entire header
//! let length = header.length();
//!
//! // unpack the desired parsed fields
//! let radiotap::Header { tsft, rate, .. } = header;
//! assert_eq!(tsft.unwrap().into_inner(), 0x12345678);
//! assert_eq!(rate.unwrap().to_kbps(), 24_000);
//!
//! // using the length we can get the rest of the capture
//! // i.e. IEEE 802.11 header and body
//! let rest = &capture[length..];
//! ```
//!
//! ### Parsing some fields
//!
//! [`Iter`] walks the presence bits one field at a time. Each field that it
//! yields has to be read or skipped before the next one is asked for, since
//! the place of a field depends on the fields before it.
//!
//! ```
//! use radiotap::field::{Type, Value};
//!
//! let capture = &[0, 0, 0xd, 0x0, 0x5, 0, 0, 0, 0x78, 0x56, 0x34, 0x12, 0, 0, 0, 0, 0x30];
//! let mut iter = radiotap::Iter::new(capture).unwrap().into_default();
//!
//! while let Some(kind) = iter.next().unwrap() {
//!     match kind {
//!         Type::Rate => {
//!             if let Value::Rate(rate) = iter.read(kind).unwrap() {
//!                 assert_eq!(rate.into_inner(), 0x30);
//!             }
//!         }
//!         kind => iter.skip(kind).unwrap(),
//!     }
//! }
//! ```
//!
//! # What is proved
//!
//! Every function of this crate is verified against its contract, and none
//! of them panics. [`parse`] returns exactly what [`parse::parse_spec`] says
//! of the bytes that it is given; [`Iter::next`] and [`IterDefault::next`]
//! do what [`iter::walk`] and [`iter::walk_known`] say. The position in the
//! capture is kept by a cursor of the `frombytes` crate, whose operations
//! are taken on trust as [`bytes`] states them.

pub mod bytes;
pub mod error;
pub mod field;
pub mod iter;
pub mod parse;

pub use crate::error::{Error, ErrorKind};
pub use crate::iter::{Field, Iter, IterDefault, Namespace};
pub use crate::parse::{parse, Header};
