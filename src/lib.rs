//! Theme documents for a widget toolkit: named variables and color
//! expressions are resolved, then every widget section is cascaded into one
//! fully defaulted appearance per state.
pub mod blend;
pub mod color;
pub mod config;
pub mod decode;
pub mod expr;
pub mod style;
pub mod table;
pub mod text;
pub mod themed;
pub mod value;
pub mod variables;

pub use color::{parse_color, ColorError, HexColor};
pub use config::{Error, Font, FontFamily, FontStretch, FontStyle, FontWeight, Palette, ThemeConfig};
pub use decode::{Background, BackgroundRaw, ColorStop, DecodeError, GradientRaw, Radius, RadiusRaw};
pub use expr::ExprError;
pub use style::button::{ButtonAppearance, ButtonStyle};
pub use style::checkbox::{CheckboxAppearance, CheckboxStatus, CheckboxStyle};
pub use style::container::{ContainerAppearance, ContainerStyle};
pub use style::progress_bar::{ProgressBarAppearance, ProgressBarStyle};
pub use style::radio::{RadioAppearance, RadioStyle};
pub use style::slider::{HandleShapeKind, SliderAppearance, SliderStyle};
pub use style::text_input::{TextInputAppearance, TextInputStatus, TextInputStyle};
pub use style::toggler::{TogglerAppearance, TogglerStyle};
pub use style::{Border, Shadow};
pub use themed::Themed;
pub use value::{Fixed, Value};
pub use variables::ResolveError;
