//! Default display patterns. A [`SpanBuilder`] collects the patterns a
//! caller wants as defaults and `build` resolves them into a
//! [`FormatConfig`], the configuration value that constructors consult when
//! no explicit pattern is given. A slot left unset falls back to the
//! canonical pattern; the DateTime default, when unset, is derived from the
//! Date and Time defaults at every read, so reconfiguring either changes it.

use vstd::prelude::*;

verus! {

use vstd::string::StringExecFns;

/// The resolved default display patterns for the three value kinds.
#[derive(Debug, Clone)]
pub struct FormatConfig {
    pub date_format: String,
    pub time_format: String,
    pub datetime_format: Option<String>,
}

impl FormatConfig {
    /// The default pattern for Date values.
    pub open spec fn spec_date_default(&self) -> Seq<char> {
        self.date_format@
    }

    /// The default pattern for Time values.
    pub open spec fn spec_time_default(&self) -> Seq<char> {
        self.time_format@
    }

    /// The default pattern for DateTime values: the explicit one if set,
    /// else the Date default, a space, and the Time default.
    pub open spec fn spec_datetime_default(&self) -> Seq<char> {
        match self.datetime_format {
            Some(f) => f@,
            None => self.date_format@ + " "@ + self.time_format@,
        }
    }

    /// The canonical configuration: `%Y-%m-%d`, `%H:%M:%S`, and a derived
    /// DateTime default.
    pub fn new() -> (r: FormatConfig)
        ensures
            r.spec_date_default() == "%Y-%m-%d"@,
            r.spec_time_default() == "%H:%M:%S"@,
            r.datetime_format is None,
    {
        FormatConfig {
            date_format: String::from_str("%Y-%m-%d"),
            time_format: String::from_str("%H:%M:%S"),
            datetime_format: None,
        }
    }

    pub fn date_default(&self) -> (r: String)
        ensures
            r@ == self.spec_date_default(),
    {
        self.date_format.clone()
    }

    pub fn time_default(&self) -> (r: String)
        ensures
            r@ == self.spec_time_default(),
    {
        self.time_format.clone()
    }

    /// Composed anew on every read when the DateTime slot is unset.
    pub fn datetime_default(&self) -> (r: String)
        ensures
            r@ == self.spec_datetime_default(),
    {
        match &self.datetime_format {
            Some(f) => f.clone(),
            None => {
                let mut out = self.date_format.clone();
                out.append(" ");
                out.append(self.time_format.as_str());
                proof {
                    assert(out@ =~= self.spec_datetime_default());
                }
                out
            },
        }
    }
}

impl Default for FormatConfig {
    fn default() -> (r: FormatConfig)
        ensures
            r.spec_date_default() == "%Y-%m-%d"@,
            r.spec_time_default() == "%H:%M:%S"@,
            r.datetime_format is None,
    {
        FormatConfig::new()
    }
}

/// Collects the default patterns a caller wants; `build` resolves them into
/// a [`FormatConfig`], substituting the canonical pattern for every slot
/// left unset.
#[derive(Debug, Clone)]
pub struct SpanBuilder {
    pub date_format: Option<String>,
    pub time_format: Option<String>,
    pub datetime_format: Option<String>,
}

impl Default for SpanBuilder {
    /// A builder with every slot unset.
    fn default() -> (r: SpanBuilder)
        ensures
            r.date_format is None,
            r.time_format is None,
            r.datetime_format is None,
    {
        SpanBuilder { date_format: None, time_format: None, datetime_format: None }
    }
}

impl SpanBuilder {
    /// A builder with every slot unset.
    pub fn builder() -> (r: SpanBuilder)
        ensures
            r.date_format is None,
            r.time_format is None,
            r.datetime_format is None,
    {
        SpanBuilder { date_format: None, time_format: None, datetime_format: None }
    }

    /// Sets the default pattern for Date values.
    pub fn date_format(self, date_format: &str) -> (r: SpanBuilder)
        ensures
            r.date_format matches Some(f) && f@ == date_format@,
            r.time_format == self.time_format,
            r.datetime_format == self.datetime_format,
    {
        SpanBuilder { date_format: Some(String::from_str(date_format)), ..self }
    }

    /// Sets the default pattern for Time values.
    pub fn time_format(self, time_format: &str) -> (r: SpanBuilder)
        ensures
            r.time_format matches Some(f) && f@ == time_format@,
            r.date_format == self.date_format,
            r.datetime_format == self.datetime_format,
    {
        SpanBuilder { time_format: Some(String::from_str(time_format)), ..self }
    }

    /// Sets the default pattern for DateTime values.
    pub fn datetime_format(self, datetime_format: &str) -> (r: SpanBuilder)
        ensures
            r.datetime_format matches Some(f) && f@ == datetime_format@,
            r.date_format == self.date_format,
            r.time_format == self.time_format,
    {
        SpanBuilder { datetime_format: Some(String::from_str(datetime_format)), ..self }
    }

    /// Resolves the builder: every set slot keeps its pattern, every unset
    /// Date or Time slot reverts to the canonical default, and an unset
    /// DateTime slot stays derived.
    pub fn build(&self) -> (r: FormatConfig)
        ensures
            r.spec_date_default() == match self.date_format {
                Some(f) => f@,
                None => "%Y-%m-%d"@,
            },
            r.spec_time_default() == match self.time_format {
                Some(f) => f@,
                None => "%H:%M:%S"@,
            },
            r.datetime_format == self.datetime_format,
    {
        let date_format = match &self.date_format {
            Some(f) => f.clone(),
            None => String::from_str("%Y-%m-%d"),
        };
        let time_format = match &self.time_format {
            Some(f) => f.clone(),
            None => String::from_str("%H:%M:%S"),
        };
        let datetime_format = match &self.datetime_format {
            Some(f) => Some(f.clone()),
            None => None,
        };
        FormatConfig { date_format, time_format, datetime_format }
    }
}

} // verus!
