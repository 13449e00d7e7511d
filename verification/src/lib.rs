//! Operating-system control primitives for a desktop shell: foreground
//! window/process resolution with DPI-aware scale factors, process
//! suspend/resume, window activation, window capture, and image
//! pre-processing for text recognition.

pub mod capture;
pub mod error;
pub mod imageio;
pub mod ocr;
pub mod process;

pub use error::OpError;
