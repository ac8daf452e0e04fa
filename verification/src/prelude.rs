//! The names most callers want in scope.

pub use crate::builder::FormatConfig;
pub use crate::builder::SpanBuilder;
pub use crate::date::Date;
pub use crate::date::DateUnit;
pub use crate::datetime::DateTime;
pub use crate::datetime::DateTimeUnit;
pub use crate::error::DateError;
pub use crate::error::DateTimeError;
pub use crate::error::SpanError;
pub use crate::error::TimeError;
pub use crate::time::Time;
pub use crate::time::TimeUnit;
pub use crate::timestamp::TimestampMicro;
pub use crate::timestamp::TimestampMilli;
pub use crate::timestamp::TimestampNano;
