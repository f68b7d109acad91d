//! Discovery and selection of FPGA resources, written as a core that never
//! touches the vendor runtime itself.
//!
//! The runtime is reached through a narrow boundary of native calls. Every
//! operation of this crate that needs the runtime more than once is a small
//! state machine: it names the next native call to make, is resumed with
//! the runtime's reply, and ends with a result. An operation that needs the
//! runtime once comes as the call to make and a function of the reply. The
//! embedding program performs the calls.
//!
//! What each operation asks for, what it concludes from the replies and
//! which native objects it lets go of is stated in its contract and proved,
//! for every reply that a runtime can give.

pub mod accelerator;
pub mod attribute;
pub mod device;
pub mod enumeration;
pub mod errors;
pub mod filter;
pub mod native;
pub mod opae;
pub mod platform;
pub mod properties;
pub mod resolution;
pub mod resource;
pub mod token;
pub mod xrt;

pub use accelerator::{Accelerator, AcceleratorInfo};
pub use attribute::{AcceleratorState, Attribute, Guid, ObjectType, Value, Version};
pub use device::{Device, DeviceInfo};
pub use enumeration::{Enumeration, First, Scan, TokenIter};
pub use errors::{Error, Status};
pub use filter::Filter;
pub use native::{Call, Machine, Next, Payload, Release, Reply, Turn};
pub use opae::{Opae, Selection};
pub use platform::{discover, Platform, PlatformType, Program, MMIO};
pub use properties::{
    AcceleratorProperties, Compilation, DeviceProperties, Properties, ResourceProperties,
};
pub use resolution::Resolution;
pub use resource::{Classification, Resource, ResourceInfo};
pub use token::Token;
