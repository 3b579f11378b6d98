//! Rendering of the registered entities as TypeScript (`.ts`), declarations
//! (`.d.ts`) and JavaScript glue (`.js`).
pub mod offset;
pub mod ts;
pub mod dts_spec;
pub mod dts;
pub mod js;

pub use offset::Offset;
