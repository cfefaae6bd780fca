pub mod buffer;
pub mod grid;
pub mod input;
pub mod laws;
pub mod project;
pub mod records;
pub mod render;

pub use buffer::TermBuffer;
pub use grid::TermCell;
pub use input::InputOutcome;
pub use input::RawInput;
pub use input::TermCommand;
pub use input::TermInput;
pub use project::TermSize;
pub use records::CameraRecord;
pub use records::SpriteRecord;
pub use records::TermCamera;
pub use records::TermChar;
pub use records::TermText;
pub use records::TermTextAlign;
pub use records::TextRecord;
