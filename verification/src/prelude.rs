pub use crate::traits::{Attributable, Callable, Documentable, Info};
