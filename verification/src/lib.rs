//! Core of a terminal video viewer that plays a compressed video stream as
//! coloured character art.
//!
//! The modules follow the data on its way to the screen: `source` picks the
//! stream to ask for, `demux` takes codec packets out of container elements,
//! `decode` and `worker` decide what the decode loop and the decode worker do
//! next, `raster` sizes the scaled frames and cuts the padding out of their
//! rows, `ascii` composes a frame into rows of coloured symbols, and
//! `playback` steers and paces the render loop. `failure` says what is done
//! about each kind of failure on the way.
//!
//! The byte stream, the element parser, the codec, the scaler, the queues and
//! the terminal belong to the program around this library. It performs what
//! the library decides and reports back what happened.

pub mod ascii;
pub mod decode;
pub mod demux;
pub mod failure;
pub mod playback;
pub mod raster;
pub mod source;
pub mod worker;
