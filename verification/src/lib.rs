//! Receipt printing for a Japanese point-of-sale terminal: a display-width
//! model, an ESC/POS command encoder, a layout engine that queues command
//! batches for a thermal printer, and the formatter that turns receipt and
//! closing-report records into those batches. Beside it stand the rules of
//! terminal authentication. The library writes to no device and reads no
//! store: it computes what is to be written, and judges what was read.

pub mod style;
pub mod width;
pub mod text;
pub mod command;
pub mod encoding;
pub mod device;
pub mod layout;
pub mod printer;
pub mod format;
pub mod receipt;
pub mod report;
pub mod welcome;
pub mod devices;
pub mod platform;
pub mod terminal_auth;
