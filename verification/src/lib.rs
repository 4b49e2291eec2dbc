//! Verified core of `madura_javac`: the decisions a `madura` invocation makes
//! before control crosses into the native `javac` image.

pub mod command;
pub mod error;
pub mod home;
pub mod invoke;
pub mod isolate;
pub mod marshal;
pub mod text;

pub use command::{parse_command, Command};
pub use error::{InvokeError, NulArgError};
pub use invoke::{compile_request, plan_invoke, plan_invoke_with, CompileRequest};
pub use home::{dist_root, platform_home, platform_image, DistPath};
pub use isolate::{attached, current_thread, IsolateState, IsolateStep};
pub use marshal::{argv, nul_terminated};
pub use text::{decimal, lossy};
