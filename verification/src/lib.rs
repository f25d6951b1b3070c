pub mod chunk;
pub mod compiler;
pub mod scanner;
pub mod text;
pub mod value;
pub mod vm;

pub use chunk::Chunk;
pub use chunk::OpCode;
pub use compiler::compile;
pub use scanner::Scanner;
pub use scanner::Token;
pub use scanner::TokenType;
pub use value::Value;
pub use value::render_value;
pub use vm::InterpretResult;
pub use vm::VM;
