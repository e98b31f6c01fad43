//! Core library of a shopping-list application, centred on its barcode
//! acquisition pipeline: the validated barcode value type, the multi-frame
//! consensus (debounce) state machine, the camera resource lifecycle, the
//! fixed-cadence frame sampler, the decode adapter around an external symbol
//! decoder, and the scan session that ties them together.  CRUD data types
//! consumed by the rest of the application live in `item`.

pub mod auth;
pub mod barcode;
pub mod barcode_scanner;
pub mod camera;
pub mod item;
pub mod util;
