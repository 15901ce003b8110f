//! Color capability detection and styled text.

pub mod ansi;
pub mod level;
pub mod style;
pub mod text;

pub use crate::state::force_color;
pub use crate::state::get_color_level;
pub use crate::state::set_use_color;
pub use crate::state::use_color;
pub use level::resolve_color_level;
pub use level::resolve_use_color;
pub use level::ColorLevel;
pub use style::black_on_green;
pub use style::bold;
pub use style::cyan;
pub use style::cyan_bold;
pub use style::cyan_with_underline;
pub use style::dimmed_gray;
pub use style::gray;
pub use style::green;
pub use style::green_bold;
pub use style::intense_blue;
pub use style::italic;
pub use style::italic_bold;
pub use style::italic_gray;
pub use style::magenta;
pub use style::red;
pub use style::red_bold;
pub use style::white_bold_on_red;
pub use style::white_on_red;
pub use style::yellow;
pub use style::yellow_bold;
pub use style::Color;
pub use style::Style;
pub use style::StyleSpec;
pub use text::render_text;
pub use text::wrap_text;
pub use text::RenderError;
pub use text::TextBuffer;
