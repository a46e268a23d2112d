//! Unwind context: scope guards that hold the context of a scope, such as a
//! function's name and its arguments, and print it when the scope is left
//! while the thread is unwinding.
//!
//! A context is captured without rendering anything. It is rendered, plain
//! or with colours, only when it is printed: the arguments joined by commas,
//! a function as `fn name(args)`, and under it the place where the guard
//! was created.

pub mod arg;
pub mod args;
pub mod color_scheme;
pub mod colored;
pub mod colored_writer;
pub mod context_with_fmt;
pub mod context_with_io;
pub mod debug_text;
pub mod debug_with;
pub mod func;
pub mod func_name;
pub mod lazy;
pub mod location;
pub mod non_exhaustive;
pub mod panic_detector;
pub mod rendered;
pub mod set_colors;
pub mod shared_settings;
pub mod text_bytes;
pub mod writer;

pub use arg::UnwindContextArg;
pub use args::{ArgList, UnwindContextArgs};
pub use color_scheme::{default_default_color_scheme, AnsiColorScheme};
pub use colored::{AnsiColored, DebugAnsiColored};
pub use colored_writer::{
    alphanumeric_given, continues_word_given, match_false_ident, match_true_ident, ColoredWriter,
    ColoredWriterMode, ColoredWriterModeStyle,
};
pub use context_with_fmt::UnwindContextWithFmt;
pub use context_with_io::UnwindContextWithIo;
pub use debug_text::DebugText;
pub use debug_with::{DisplayText, PrettyDebugText, WithDisplay, WithPrettyDebug};
pub use func::UnwindContextFunc;
pub use func_name::func_name_from_item_type_name;
pub use lazy::{leave_scope, leave_scope_flushed, LazyArgs, LazyContext};
pub use location::{
    fmt_context, fmt_context_colored, print_context, print_context_flushed, print_rendered,
    print_rendered_flushed, SourceLocation,
};
pub use non_exhaustive::NonExhaustiveMarker;
pub use panic_detector::PanicDetector;
pub use rendered::PreRendered;
pub use set_colors::{
    are_colors_enabled, enable_colors_if, enable_colors_if_supported, get_default_color_scheme,
    get_default_color_scheme_if_enabled, resolve_color_scheme, set_colors_enabled,
    set_default_color_scheme, ColorSettings, ColorSupport,
};
pub use shared_settings::SharedColorSettings;
pub use writer::{FixedBufWriter, FlushSink, TextSink, WriteError};
