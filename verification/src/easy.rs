//! The easy handle: which `curl_easy_setopt` calls each option needs, and
//! what libcurl's answers mean.
//!
//! Every option method returns the calls to make, in order ([`Setopt`]);
//! the caller makes them on the libcurl handle, stops at the first one that
//! libcurl refuses and reports its code through [`cvt`]. Every information
//! method takes what `curl_easy_getinfo` answered and returns what the
//! handle reports to its user.

use vstd::prelude::*;
use vstd::string::StringSliceAdditionalSpecFns;
use vstd::string::StrSliceExecFns;
use vstd::utf8::{valid_utf8, decode_utf8, encode_utf8, decode_utf8_encode_utf8};

use crate::error::{Error, cvt};
use crate::list::{List, has_nul, all_c_strings, contains_nul};
use crate::sys;

verus! {

// =============================================================================
// Values of enumerated options

/// Possible proxy types that libcurl currently understands.
#[allow(non_camel_case_types)]
#[derive(Clone, Copy, Debug, PartialEq, Eq, Structural)]
pub enum ProxyType {
    Http,
    Http1,
    Socks4,
    Socks5,
    Socks4a,
    Socks5Hostname,
    /// A variant that keeps matches open: the set may grow over time.
    __Nonexhaustive,
}

impl ProxyType {
    /// The `curl_proxytype` value of this proxy type.
    pub open spec fn code(self) -> i64 {
        match self {
            ProxyType::Http => sys::CURLPROXY_HTTP as i64,
            ProxyType::Http1 => sys::CURLPROXY_HTTP_1_0 as i64,
            ProxyType::Socks4 => sys::CURLPROXY_SOCKS4 as i64,
            ProxyType::Socks5 => sys::CURLPROXY_SOCKS5 as i64,
            ProxyType::Socks4a => sys::CURLPROXY_SOCKS4A as i64,
            ProxyType::Socks5Hostname => sys::CURLPROXY_SOCKS5_HOSTNAME as i64,
            ProxyType::__Nonexhaustive => 8,
        }
    }

    /// The `curl_proxytype` value of this proxy type.
    pub fn raw(&self) -> (r: i64)
        ensures
            r == self.code(),
    {
        match self {
            ProxyType::Http => sys::CURLPROXY_HTTP as i64,
            ProxyType::Http1 => sys::CURLPROXY_HTTP_1_0 as i64,
            ProxyType::Socks4 => sys::CURLPROXY_SOCKS4 as i64,
            ProxyType::Socks5 => sys::CURLPROXY_SOCKS5 as i64,
            ProxyType::Socks4a => sys::CURLPROXY_SOCKS4A as i64,
            ProxyType::Socks5Hostname => sys::CURLPROXY_SOCKS5_HOSTNAME as i64,
            ProxyType::__Nonexhaustive => 8,
        }
    }
}

/// Possible conditions for the `time_condition` method.
#[allow(non_camel_case_types)]
#[derive(Clone, Copy, Debug, PartialEq, Eq, Structural)]
pub enum TimeCondition {
    /// No time condition.
    NoCondition,
    IfModifiedSince,
    IfUnmodifiedSince,
    LastModified,
    /// A variant that keeps matches open: the set may grow over time.
    __Nonexhaustive,
}

impl TimeCondition {
    /// The `curl_TimeCond` value of this condition.
    pub open spec fn code(self) -> i64 {
        match self {
            TimeCondition::NoCondition => sys::CURL_TIMECOND_NONE as i64,
            TimeCondition::IfModifiedSince => sys::CURL_TIMECOND_IFMODSINCE as i64,
            TimeCondition::IfUnmodifiedSince => sys::CURL_TIMECOND_IFUNMODSINCE as i64,
            TimeCondition::LastModified => sys::CURL_TIMECOND_LASTMOD as i64,
            TimeCondition::__Nonexhaustive => 4,
        }
    }

    /// The `curl_TimeCond` value of this condition.
    pub fn raw(&self) -> (r: i64)
        ensures
            r == self.code(),
    {
        match self {
            TimeCondition::NoCondition => sys::CURL_TIMECOND_NONE as i64,
            TimeCondition::IfModifiedSince => sys::CURL_TIMECOND_IFMODSINCE as i64,
            TimeCondition::IfUnmodifiedSince => sys::CURL_TIMECOND_IFUNMODSINCE as i64,
            TimeCondition::LastModified => sys::CURL_TIMECOND_LASTMOD as i64,
            TimeCondition::__Nonexhaustive => 4,
        }
    }
}

/// Possible values to pass to the `ip_resolve` method.
#[allow(non_camel_case_types)]
#[derive(Clone, Copy, Debug, PartialEq, Eq, Structural)]
pub enum IpResolve {
    V4,
    V6,
    Any,
    /// A variant that keeps matches open: the set may grow over time.
    __Nonexhaustive,
}

impl IpResolve {
    /// The `sys::CURL_IPRESOLVE_*` value of this choice.
    pub open spec fn code(self) -> i64 {
        match self {
            IpResolve::V4 => sys::CURL_IPRESOLVE_V4 as i64,
            IpResolve::V6 => sys::CURL_IPRESOLVE_V6 as i64,
            IpResolve::Any => sys::CURL_IPRESOLVE_WHATEVER as i64,
            IpResolve::__Nonexhaustive => 500,
        }
    }

    /// The `sys::CURL_IPRESOLVE_*` value of this choice.
    pub fn raw(&self) -> (r: i64)
        ensures
            r == self.code(),
    {
        match self {
            IpResolve::V4 => sys::CURL_IPRESOLVE_V4 as i64,
            IpResolve::V6 => sys::CURL_IPRESOLVE_V6 as i64,
            IpResolve::Any => sys::CURL_IPRESOLVE_WHATEVER as i64,
            IpResolve::__Nonexhaustive => 500,
        }
    }
}

/// Possible values to pass to the `ssl_version` method.
#[allow(non_camel_case_types)]
#[derive(Clone, Copy, Debug, PartialEq, Eq, Structural)]
pub enum SslVersion {
    Default,
    Tlsv1,
    Sslv2,
    Sslv3,
    /// A variant that keeps matches open: the set may grow over time.
    __Nonexhaustive,
}

impl SslVersion {
    /// The `sys::CURL_SSLVERSION_*` value of this version.
    pub open spec fn code(self) -> i64 {
        match self {
            SslVersion::Default => sys::CURL_SSLVERSION_DEFAULT as i64,
            SslVersion::Tlsv1 => sys::CURL_SSLVERSION_TLSV1 as i64,
            SslVersion::Sslv2 => sys::CURL_SSLVERSION_SSLV2 as i64,
            SslVersion::Sslv3 => sys::CURL_SSLVERSION_SSLV3 as i64,
            SslVersion::__Nonexhaustive => 500,
        }
    }

    /// The `sys::CURL_SSLVERSION_*` value of this version.
    pub fn raw(&self) -> (r: i64)
        ensures
            r == self.code(),
    {
        match self {
            SslVersion::Default => sys::CURL_SSLVERSION_DEFAULT as i64,
            SslVersion::Tlsv1 => sys::CURL_SSLVERSION_TLSV1 as i64,
            SslVersion::Sslv2 => sys::CURL_SSLVERSION_SSLV2 as i64,
            SslVersion::Sslv3 => sys::CURL_SSLVERSION_SSLV3 as i64,
            SslVersion::__Nonexhaustive => 500,
        }
    }
}

/// Possible return values from the `seek_function` callback.
#[allow(non_camel_case_types)]
#[derive(Clone, Copy, Debug, PartialEq, Eq, Structural)]
pub enum SeekResult {
    /// Indicates that the seek operation was a success.
    Success,
    /// Indicates that the seek operation failed, and the entire request should
    /// fail as a result.
    Fail,
    /// Indicates that although the seek failed libcurl should attempt to keep
    /// working if possible (for example "seek" through reading).
    CantSeek,
    /// A variant that keeps matches open: the set may grow over time.
    __Nonexhaustive,
}

impl SeekResult {
    /// The `sys::CURL_SEEKFUNC_*` value that reports this result to libcurl.
    pub open spec fn code(self) -> i32 {
        match self {
            SeekResult::Success => sys::CURL_SEEKFUNC_OK,
            SeekResult::Fail => sys::CURL_SEEKFUNC_FAIL,
            SeekResult::CantSeek => sys::CURL_SEEKFUNC_CANTSEEK,
            SeekResult::__Nonexhaustive => 500,
        }
    }

    /// The `sys::CURL_SEEKFUNC_*` value that reports this result to libcurl.
    pub fn raw(&self) -> (r: i32)
        ensures
            r == self.code(),
    {
        match self {
            SeekResult::Success => sys::CURL_SEEKFUNC_OK,
            SeekResult::Fail => sys::CURL_SEEKFUNC_FAIL,
            SeekResult::CantSeek => sys::CURL_SEEKFUNC_CANTSEEK,
            SeekResult::__Nonexhaustive => 500,
        }
    }
}

/// Possible data chunks that can be witnessed as part of the `debug_function`
/// callback.
#[allow(non_camel_case_types)]
#[derive(Clone, Copy, Debug, PartialEq, Eq, Structural)]
pub enum InfoType {
    /// The data is informational text.
    Text,
    /// The data is header (or header-like) data received from the peer.
    HeaderIn,
    /// The data is header (or header-like) data sent to the peer.
    HeaderOut,
    /// The data is protocol data received from the peer.
    DataIn,
    /// The data is protocol data sent to the peer.
    DataOut,
    /// The data is SSL/TLS (binary) data received from the peer.
    SslDataIn,
    /// The data is SSL/TLS (binary) data sent to the peer.
    SslDataOut,
    /// A variant that keeps matches open: the set may grow over time.
    __Nonexhaustive,
}

impl InfoType {
    /// The kind of debug data that libcurl's `curl_infotype` value `kind`
    /// names, if it is one of those the debug callback reports.
    pub open spec fn of_code(kind: u32) -> Option<InfoType> {
        if kind == sys::CURLINFO_TEXT {
            Some(InfoType::Text)
        } else if kind == sys::CURLINFO_HEADER_IN {
            Some(InfoType::HeaderIn)
        } else if kind == sys::CURLINFO_HEADER_OUT {
            Some(InfoType::HeaderOut)
        } else if kind == sys::CURLINFO_DATA_IN {
            Some(InfoType::DataIn)
        } else if kind == sys::CURLINFO_DATA_OUT {
            Some(InfoType::DataOut)
        } else if kind == sys::CURLINFO_SSL_DATA_IN {
            Some(InfoType::SslDataIn)
        } else if kind == sys::CURLINFO_SSL_DATA_OUT {
            Some(InfoType::SslDataOut)
        } else {
            None
        }
    }

    /// Maps libcurl's `curl_infotype` value to the kind of debug data that
    /// the debug callback receives; other values are not reported.
    pub fn from_raw(kind: u32) -> (r: Option<InfoType>)
        ensures
            r == InfoType::of_code(kind),
    {
        if kind == sys::CURLINFO_TEXT {
            Some(InfoType::Text)
        } else if kind == sys::CURLINFO_HEADER_IN {
            Some(InfoType::HeaderIn)
        } else if kind == sys::CURLINFO_HEADER_OUT {
            Some(InfoType::HeaderOut)
        } else if kind == sys::CURLINFO_DATA_IN {
            Some(InfoType::DataIn)
        } else if kind == sys::CURLINFO_DATA_OUT {
            Some(InfoType::DataOut)
        } else if kind == sys::CURLINFO_SSL_DATA_IN {
            Some(InfoType::SslDataIn)
        } else if kind == sys::CURLINFO_SSL_DATA_OUT {
            Some(InfoType::SslDataOut)
        } else {
            None
        }
    }
}

// =============================================================================
// Durations

/// One billion: the nanoseconds in a second.
pub const NANOS_PER_SEC: u32 = 1_000_000_000;

/// A span of time: whole seconds and the nanoseconds beyond them.
#[derive(Clone, Copy, Debug, PartialEq, Eq, Structural)]
pub struct Duration {
    secs: u64,
    nanos: u32,
}

impl View for Duration {
    type V = (u64, u32);

    closed spec fn view(&self) -> (u64, u32) {
        (self.secs, self.nanos)
    }
}

impl Duration {
    #[verifier::type_invariant]
    closed spec fn nanos_below_a_second(self) -> bool {
        self.nanos < NANOS_PER_SEC
    }

    /// A span of `secs` seconds and `nanos` nanoseconds.
    pub fn new(secs: u64, nanos: u32) -> (d: Duration)
        requires
            nanos < NANOS_PER_SEC,
        ensures
            d@ == (secs, nanos),
    {
        Duration { secs, nanos }
    }

    /// A span of `secs` whole seconds.
    pub fn from_secs(secs: u64) -> (d: Duration)
        ensures
            d@ == (secs, 0u32),
    {
        Duration { secs, nanos: 0 }
    }

    /// A span of `millis` milliseconds.
    pub fn from_millis(millis: u64) -> (d: Duration)
        ensures
            d@ == ((millis / 1000) as u64, ((millis % 1000) * 1_000_000) as u32),
    {
        Duration { secs: millis / 1000, nanos: ((millis % 1000) as u32) * 1_000_000 }
    }

    /// The whole seconds of this span.
    pub fn as_secs(&self) -> (s: u64)
        ensures
            s == self@.0,
    {
        self.secs
    }

    /// The nanoseconds of this span beyond its whole seconds.
    pub fn subsec_nanos(&self) -> (n: u32)
        ensures
            n == self@.1,
            n < NANOS_PER_SEC,
    {
        proof {
            use_type_invariant(self);
        }
        self.nanos
    }

    /// The span in whole milliseconds (the nanoseconds below a millisecond
    /// are dropped).
    pub open spec fn millis(self) -> int {
        self@.0 * 1000 + self@.1 / 1_000_000
    }
}

// =============================================================================
// The calls that the options make

/// Which callback of the handle an option installs.
#[derive(Clone, Copy, Debug, PartialEq, Eq, Structural)]
pub enum Callback {
    Write,
    Read,
    Seek,
    Progress,
    Debug,
    Header,
}

/// The argument of one `curl_easy_setopt` call.
#[derive(Debug, PartialEq, Eq)]
pub enum OptValue<'a> {
    /// A C `long`.
    Long(i64),
    /// A `curl_off_t`.
    OffT(i64),
    /// A C string: these bytes, which hold no NUL, followed by a NUL.
    Str(Vec<u8>),
    /// A pointer to the caller's buffer.
    Data(&'a [u8]),
    /// A null pointer.
    Null,
    /// The `curl_slist` of the handle's header list.
    HeaderList,
    /// The function that libcurl calls for this callback.
    Callback(Callback),
    /// The pointer to the handle's callback state, handed to every callback.
    CallbackData,
}

/// One `curl_easy_setopt` call: the option and its argument.
#[derive(Debug, PartialEq, Eq)]
pub struct Setopt<'a> {
    pub option: u32,
    pub value: OptValue<'a>,
}

/// What an [`OptValue`] hands to libcurl.
pub enum Arg {
    Long(i64),
    OffT(i64),
    Str(Seq<u8>),
    Data(Seq<u8>),
    Null,
    HeaderList,
    Callback(Callback),
    CallbackData,
}

/// What a [`Setopt`] hands to libcurl.
pub struct Call {
    pub option: u32,
    pub arg: Arg,
}

impl<'a> View for OptValue<'a> {
    type V = Arg;

    open spec fn view(&self) -> Arg {
        match self {
            OptValue::Long(v) => Arg::Long(*v),
            OptValue::OffT(v) => Arg::OffT(*v),
            OptValue::Str(b) => Arg::Str(b@),
            OptValue::Data(d) => Arg::Data(d@),
            OptValue::Null => Arg::Null,
            OptValue::HeaderList => Arg::HeaderList,
            OptValue::Callback(k) => Arg::Callback(*k),
            OptValue::CallbackData => Arg::CallbackData,
        }
    }
}

impl<'a> View for Setopt<'a> {
    type V = Call;

    open spec fn view(&self) -> Call {
        Call { option: self.option, arg: self.value@ }
    }
}

/// The calls of a plan, in order.
pub open spec fn calls<'a>(plan: Seq<Setopt<'a>>) -> Seq<Call> {
    plan.map_values(|s: Setopt<'a>| s@)
}

/// The option that installs the function of callback `k`.
pub open spec fn callback_option(k: Callback) -> u32 {
    match k {
        Callback::Write => sys::CURLOPT_WRITEFUNCTION,
        Callback::Read => sys::CURLOPT_READFUNCTION,
        Callback::Seek => sys::CURLOPT_SEEKFUNCTION,
        Callback::Progress => sys::CURLOPT_XFERINFOFUNCTION,
        Callback::Debug => sys::CURLOPT_DEBUGFUNCTION,
        Callback::Header => sys::CURLOPT_HEADERFUNCTION,
    }
}

/// The option that hands callback `k` its state.
pub open spec fn callback_data_option(k: Callback) -> u32 {
    match k {
        Callback::Write => sys::CURLOPT_WRITEDATA,
        Callback::Read => sys::CURLOPT_READDATA,
        Callback::Seek => sys::CURLOPT_SEEKDATA,
        Callback::Progress => sys::CURLOPT_XFERINFODATA,
        Callback::Debug => sys::CURLOPT_DEBUGDATA,
        Callback::Header => sys::CURLOPT_HEADERDATA,
    }
}

/// True when the call hands libcurl an argument of the C type that its
/// option takes: a `long` to a `sys::CURLOPTTYPE_LONG` option, a pointer to a
/// `sys::CURLOPTTYPE_OBJECTPOINT` option, the right function to a
/// `sys::CURLOPTTYPE_FUNCTIONPOINT` option and a `curl_off_t` to a
/// `sys::CURLOPTTYPE_OFF_T` option.
pub open spec fn well_typed(c: Call) -> bool {
    match c.arg {
        Arg::Long(_) => sys::CURLOPTTYPE_LONG <= c.option < sys::CURLOPTTYPE_OBJECTPOINT,
        Arg::OffT(_) => sys::CURLOPTTYPE_OFF_T <= c.option < sys::CURLOPTTYPE_BLOB,
        Arg::Callback(k) => c.option == callback_option(k),
        Arg::Str(b) => sys::CURLOPTTYPE_OBJECTPOINT <= c.option < sys::CURLOPTTYPE_FUNCTIONPOINT
            && !has_nul(b),
        _ => sys::CURLOPTTYPE_OBJECTPOINT <= c.option < sys::CURLOPTTYPE_FUNCTIONPOINT,
    }
}

/// True when every call of the plan is well typed.
pub open spec fn all_well_typed(plan: Seq<Call>) -> bool {
    forall|i: int| 0 <= i < plan.len() ==> well_typed(#[trigger] plan[i])
}

/// The call that sets `option` to the `long` value `v`.
pub open spec fn long_call(option: u32, v: i64) -> Call {
    Call { option, arg: Arg::Long(v) }
}

/// The call that sets `option` to the `curl_off_t` value `v`.
pub open spec fn off_t_call(option: u32, v: i64) -> Call {
    Call { option, arg: Arg::OffT(v) }
}

/// The `long` that stands for a flag: 1 for `true`, 0 for `false`.
pub open spec fn flag(b: bool) -> i64 {
    if b {
        1
    } else {
        0
    }
}

/// True when `r` is what setting `option` to the text `text` gives: the
/// call with the text as a C string, or, for text holding a NUL byte, the
/// error `sys::CURLE_CONV_FAILED` and no call.
pub open spec fn text_option<'a>(r: Result<Setopt<'a>, Error>, option: u32, text: Seq<u8>) -> bool {
    if has_nul(text) {
        r matches Err(e) && e@ == sys::CURLE_CONV_FAILED
    } else {
        r matches Ok(s) && s@ == Call { option, arg: Arg::Str(text) } && well_typed(s@)
    }
}

/// The calls that install callback `k`: first its function, then its state.
pub open spec fn callback_calls(k: Callback) -> Seq<Call> {
    seq![
        Call { option: callback_option(k), arg: Arg::Callback(k) },
        Call { option: callback_data_option(k), arg: Arg::CallbackData },
    ]
}

/// The calls that announce a body of `size` bytes: first the pointer to
/// any earlier body is cleared, so that libcurl cannot read past it, then
/// the size is set.
pub open spec fn post_field_size_calls(size: u64) -> Seq<Call> {
    seq![
        Call { option: sys::CURLOPT_POSTFIELDS, arg: Arg::Null },
        off_t_call(sys::CURLOPT_POSTFIELDSIZE_LARGE, size as i64),
    ]
}

fn flag_value(b: bool) -> (v: i64)
    ensures
        v == flag(b),
{
    if b {
        1
    } else {
        0
    }
}

fn setopt_long(option: u32, v: i64) -> (s: Setopt<'static>)
    ensures
        s@ == long_call(option, v),
{
    Setopt { option, value: OptValue::Long(v) }
}

fn setopt_off_t(option: u32, v: i64) -> (s: Setopt<'static>)
    ensures
        s@ == off_t_call(option, v),
{
    Setopt { option, value: OptValue::OffT(v) }
}

fn setopt_str(option: u32, text: &[u8]) -> (r: Result<Setopt<'static>, Error>)
    requires
        sys::CURLOPTTYPE_OBJECTPOINT <= option < sys::CURLOPTTYPE_FUNCTIONPOINT,
    ensures
        text_option(r, option, text@),
{
    if contains_nul(text) {
        Err(Error::conv_failed())
    } else {
        Ok(Setopt { option, value: OptValue::Str(vstd::slice::slice_to_vec(text)) })
    }
}

fn callback_plan(k: Callback, function: u32, data: u32) -> (plan: Vec<Setopt<'static>>)
    requires
        function == callback_option(k),
        data == callback_data_option(k),
    ensures
        calls(plan@) == callback_calls(k),
{
    let mut plan: Vec<Setopt<'static>> = Vec::new();
    plan.push(Setopt { option: function, value: OptValue::Callback(k) });
    plan.push(Setopt { option: data, value: OptValue::CallbackData });
    assert(calls(plan@) =~= callback_calls(k));
    plan
}


// =============================================================================
// The handle

/// The library's side of a libcurl "easy session".
///
/// libcurl keeps the options of a handle; the library keeps what libcurl
/// only borrows from it: the list of HTTP headers that the handle sends.
/// Options are preserved across transfers and need to be reset manually (or
/// via the `reset` method) if this is not desired.
pub struct Easy {
    header_list: List,
}

impl Easy {
    /// The HTTP headers that the handle holds for libcurl.
    pub closed spec fn headers(&self) -> Seq<Seq<u8>> {
        self.header_list@
    }

    /// Creates the library's side of a new handle, which holds no headers.
    ///
    /// A new handle is then configured by the calls of
    /// [`Easy::default_configure`].
    pub fn new() -> (e: Easy)
        ensures
            e.headers() == Seq::<Seq<u8>>::empty(),
    {
        Easy { header_list: List::new() }
    }

    /// The HTTP headers that the handle holds for libcurl.
    pub fn header_list(&self) -> (l: &List)
        ensures
            l@ == self.headers(),
    {
        &self.header_list
    }

    /// Configures this handle to have verbose output to help debug protocol
    /// information.
    ///
    /// By default output goes to stderr, but the `stderr` function on this type
    /// can configure that. You can also use the `debug_function` method to get
    /// all protocol data sent and received.
    ///
    /// By default, this option is `false`.
    pub fn verbose(&self, verbose: bool) -> (s: Setopt<'static>)
        ensures
            s@ == long_call(sys::CURLOPT_VERBOSE, flag(verbose)),
            well_typed(s@),
    {
        setopt_long(sys::CURLOPT_VERBOSE, flag_value(verbose))
    }

    /// Indicates whether header information is streamed to the output body of
    /// this request.
    ///
    /// This option is only relevant for protocols which have header metadata
    /// (like http or ftp). It's not generally possible to extract headers
    /// from the body if using this method, that use case should be intended for
    /// the `header_function` method.
    ///
    /// To set HTTP headers, use the `http_header` method.
    ///
    /// By default, this option is `false` and corresponds to
    /// `CURLOPT_HEADER`.
    pub fn show_header(&self, show: bool) -> (s: Setopt<'static>)
        ensures
            s@ == long_call(sys::CURLOPT_HEADER, flag(show)),
            well_typed(s@),
    {
        setopt_long(sys::CURLOPT_HEADER, flag_value(show))
    }

    /// Indicates whether a progress meter will be shown for requests done with
    /// this handle.
    ///
    /// This will also prevent the `progress_function` from being called.
    ///
    /// By default this option is `false` and corresponds to
    /// `CURLOPT_NOPROGRESS`.
    pub fn progress(&self, progress: bool) -> (s: Setopt<'static>)
        ensures
            s@ == long_call(sys::CURLOPT_NOPROGRESS, flag(!progress)),
            well_typed(s@),
    {
        setopt_long(sys::CURLOPT_NOPROGRESS, flag_value(!progress))
    }

    /// Inform libcurl whether or not it should install signal handlers or
    /// attempt to use signals to perform library functions.
    ///
    /// If this option is disabled then timeouts during name resolution will not
    /// work unless libcurl is built against c-ares. Note that enabling this
    /// option, however, may not cause libcurl to work with multiple threads.
    ///
    /// By default this option is `false` and corresponds to `CURLOPT_NOSIGNAL`.
    /// Note that this default is **different than libcurl** as it is intended
    /// that this library is threadsafe by default. See the [libcurl docs] for
    /// some more information.
    ///
    /// [libcurl docs]: https://curl.haxx.se/libcurl/c/threadsafe.html
    pub fn signal(&self, signal: bool) -> (s: Setopt<'static>)
        ensures
            s@ == long_call(sys::CURLOPT_NOSIGNAL, flag(!signal)),
            well_typed(s@),
    {
        setopt_long(sys::CURLOPT_NOSIGNAL, flag_value(!signal))
    }

    /// Indicates whether multiple files will be transferred based on the file
    /// name pattern.
    ///
    /// The last part of a filename uses fnmatch-like pattern matching.
    ///
    /// By default this option is `false` and corresponds to
    /// `CURLOPT_WILDCARDMATCH`.
    pub fn wildcard_match(&self, m: bool) -> (s: Setopt<'static>)
        ensures
            s@ == long_call(sys::CURLOPT_WILDCARDMATCH, flag(m)),
            well_typed(s@),
    {
        setopt_long(sys::CURLOPT_WILDCARDMATCH, flag_value(m))
    }

    /// Set callback for writing received data.
    ///
    /// This callback function gets called by libcurl as soon as there is data
    /// received that needs to be saved.
    ///
    /// The callback function will be passed as much data as possible in all
    /// invokes, but you must not make any assumptions. It may be one byte, it
    /// may be thousands. If `show_header` is enabled, which makes header data
    /// get passed to the write callback, you can get up to
    /// `CURL_MAX_HTTP_HEADER` bytes of header data passed into it.  This
    /// usually means 100K.
    ///
    /// This function may be called with zero bytes data if the transferred file
    /// is empty.
    ///
    /// The callback should return the number of bytes actually taken care of.
    /// If that amount differs from the amount passed to your callback function,
    /// it'll signal an error condition to the library. This will cause the
    /// transfer to get aborted and the libcurl function used will return
    /// an error with `is_write_error`.
    ///
    /// If your callback function returns `CURL_WRITEFUNC_PAUSE` it will cause
    /// this transfer to become paused. See `pause` for further details.
    ///
    /// By default data is written to stdout, and this corresponds to the
    /// `CURLOPT_WRITEFUNCTION` and `CURLOPT_WRITEDATA` options.
    ///
    /// The calls install libcurl's entry point for this callback and the
    /// handle's callback state; the closure itself is kept by the caller.
    pub fn write_function(&self) -> (plan: Vec<Setopt<'static>>)
        ensures
            calls(plan@) == callback_calls(Callback::Write),
            all_well_typed(calls(plan@)),
    {
        callback_plan(Callback::Write, sys::CURLOPT_WRITEFUNCTION, sys::CURLOPT_WRITEDATA)
    }

    /// Read callback for data uploads.
    ///
    /// This callback function gets called by libcurl as soon as it needs to
    /// read data in order to send it to the peer - like if you ask it to upload
    /// or post data to the server.
    ///
    /// Your function must then return the actual number of bytes that it stored
    /// in that memory area. Returning 0 will signal end-of-file to the library
    /// and cause it to stop the current transfer.
    ///
    /// If you stop the current transfer by returning 0 "pre-maturely" (i.e
    /// before the server expected it, like when you've said you will upload N
    /// bytes and you upload less than N bytes), you may experience that the
    /// server "hangs" waiting for the rest of the data that won't come.
    ///
    /// The read callback may return `CURL_READFUNC_ABORT` to stop the current
    /// operation immediately, resulting in a `is_aborted_by_callback` error
    /// code from the transfer.
    ///
    /// The callback can return `CURL_READFUNC_PAUSE` to cause reading from this
    /// connection to pause. See `pause` for further details.
    ///
    /// By default data is read from stdin, and this corresponds to the
    /// `CURLOPT_READFUNCTION` and `CURLOPT_READDATA` options.
    ///
    /// The calls install libcurl's entry point for this callback and the
    /// handle's callback state; the closure itself is kept by the caller.
    pub fn read_function(&self) -> (plan: Vec<Setopt<'static>>)
        ensures
            calls(plan@) == callback_calls(Callback::Read),
            all_well_typed(calls(plan@)),
    {
        callback_plan(Callback::Read, sys::CURLOPT_READFUNCTION, sys::CURLOPT_READDATA)
    }

    /// User callback for seeking in input stream.
    ///
    /// This function gets called by libcurl to seek to a certain position in
    /// the input stream and can be used to fast forward a file in a resumed
    /// upload (instead of reading all uploaded bytes with the normal read
    /// function/callback). It is also called to rewind a stream when data has
    /// already been sent to the server and needs to be sent again. This may
    /// happen when doing a HTTP PUT or POST with a multi-pass authentication
    /// method, or when an existing HTTP connection is reused too late and the
    /// server closes the connection.
    ///
    /// The callback function must return `SeekResult::Ok` on success,
    /// `SeekResult::Fail` to cause the upload operation to fail or
    /// `SeekResult::CantSeek` to indicate that while the seek failed, libcurl
    /// is free to work around the problem if possible. The latter can sometimes
    /// be done by instead reading from the input or similar.
    ///
    /// By default data this option is not set, and this corresponds to the
    /// `CURLOPT_SEEKFUNCTION` and `CURLOPT_SEEKDATA` options.
    ///
    /// The calls install libcurl's entry point for this callback and the
    /// handle's callback state; the closure itself is kept by the caller.
    pub fn seek_function(&self) -> (plan: Vec<Setopt<'static>>)
        ensures
            calls(plan@) == callback_calls(Callback::Seek),
            all_well_typed(calls(plan@)),
    {
        callback_plan(Callback::Seek, sys::CURLOPT_SEEKFUNCTION, sys::CURLOPT_SEEKDATA)
    }

    /// Callback to progress meter function
    ///
    /// This function gets called by libcurl instead of its internal equivalent
    /// with a frequent interval. While data is being transferred it will be
    /// called very frequently, and during slow periods like when nothing is
    /// being transferred it can slow down to about one call per second.
    ///
    /// The callback gets told how much data libcurl will transfer and has
    /// transferred, in number of bytes. The first argument is the total number
    /// of bytes libcurl expects to download in this transfer. The second
    /// argument is the number of bytes downloaded so far. The third argument is
    /// the total number of bytes libcurl expects to upload in this transfer.
    /// The fourth argument is the number of bytes uploaded so far.
    ///
    /// Unknown/unused argument values passed to the callback will be set to
    /// zero (like if you only download data, the upload size will remain 0).
    /// Many times the callback will be called one or more times first, before
    /// it knows the data sizes so a program must be made to handle that.
    ///
    /// Returning `false` from this callback will cause libcurl to abort the
    /// transfer and return `is_aborted_by_callback`.
    ///
    /// If you transfer data with the multi interface, this function will not be
    /// called during periods of idleness unless you call the appropriate
    /// libcurl function that performs transfers.
    ///
    /// `noprogress` must be set to 0 to make this function actually get
    /// called.
    ///
    /// By default this function calls an internal method and corresponds to
    /// `CURLOPT_XFERINFOFUNCTION` and `CURLOPT_XFERINFODATA`.
    ///
    /// The calls install libcurl's entry point for this callback and the
    /// handle's callback state; the closure itself is kept by the caller.
    pub fn progress_function(&self) -> (plan: Vec<Setopt<'static>>)
        ensures
            calls(plan@) == callback_calls(Callback::Progress),
            all_well_typed(calls(plan@)),
    {
        callback_plan(Callback::Progress, sys::CURLOPT_XFERINFOFUNCTION, sys::CURLOPT_XFERINFODATA)
    }

    /// Specify a debug callback
    ///
    /// `debug_function` replaces the standard debug function used when
    /// `verbose` is in effect. This callback receives debug information,
    /// as specified in the type argument.
    ///
    /// By default this option is not set and corresponds to the
    /// `CURLOPT_DEBUGFUNCTION` and `CURLOPT_DEBUGDATA` options.
    ///
    /// The calls install libcurl's entry point for this callback and the
    /// handle's callback state; the closure itself is kept by the caller.
    pub fn debug_function(&self) -> (plan: Vec<Setopt<'static>>)
        ensures
            calls(plan@) == callback_calls(Callback::Debug),
            all_well_typed(calls(plan@)),
    {
        callback_plan(Callback::Debug, sys::CURLOPT_DEBUGFUNCTION, sys::CURLOPT_DEBUGDATA)
    }

    /// Callback that receives header data
    ///
    /// This function gets called by libcurl as soon as it has received header
    /// data. The header callback will be called once for each header and only
    /// complete header lines are passed on to the callback. Parsing headers is
    /// very easy using this. If this callback returns `false` it'll signal an
    /// error to the library. This will cause the transfer to get aborted and
    /// the libcurl function in progress will return `is_write_error`.
    ///
    /// A complete HTTP header that is passed to this function can be up to
    /// CURL_MAX_HTTP_HEADER (100K) bytes.
    ///
    /// It's important to note that the callback will be invoked for the headers
    /// of all responses received after initiating a request and not just the
    /// final response. This includes all responses which occur during
    /// authentication negotiation. If you need to operate on only the headers
    /// from the final response, you will need to collect headers in the
    /// callback yourself and use HTTP status lines, for example, to delimit
    /// response boundaries.
    ///
    /// When a server sends a chunked encoded transfer, it may contain a
    /// trailer. That trailer is identical to a HTTP header and if such a
    /// trailer is received it is passed to the application using this callback
    /// as well. There are several ways to detect it being a trailer and not an
    /// ordinary header: 1) it comes after the response-body. 2) it comes after
    /// the final header line (CR LF) 3) a Trailer: header among the regular
    /// response-headers mention what header(s) to expect in the trailer.
    ///
    /// For non-HTTP protocols like FTP, POP3, IMAP and SMTP this function will
    /// get called with the server responses to the commands that libcurl sends.
    ///
    /// By default this option is not set and corresponds to the
    /// `CURLOPT_HEADERFUNCTION` and `CURLOPT_HEADERDATA` options.
    ///
    /// The calls install libcurl's entry point for this callback and the
    /// handle's callback state; the closure itself is kept by the caller.
    pub fn header_function(&self) -> (plan: Vec<Setopt<'static>>)
        ensures
            calls(plan@) == callback_calls(Callback::Header),
            all_well_typed(calls(plan@)),
    {
        callback_plan(Callback::Header, sys::CURLOPT_HEADERFUNCTION, sys::CURLOPT_HEADERDATA)
    }

    /// Indicates whether this library will fail on HTTP response codes >= 400.
    ///
    /// This method is not fail-safe especially when authentication is involved.
    ///
    /// By default this option is `false` and corresponds to
    /// `CURLOPT_FAILONERROR`.
    pub fn fail_on_error(&self, fail: bool) -> (s: Setopt<'static>)
        ensures
            s@ == long_call(sys::CURLOPT_FAILONERROR, flag(fail)),
            well_typed(s@),
    {
        setopt_long(sys::CURLOPT_FAILONERROR, flag_value(fail))
    }

    /// Provides the URL which this handle will work with.
    ///
    /// The string provided must be URL-encoded with the format:
    ///
    /// ```text
    /// scheme://host:port/path
    /// ```
    ///
    /// The syntax is not validated as part of this function and that is
    /// deferred until later.
    ///
    /// By default this option is not set and `perform` will not work until it
    /// is set. This option corresponds to `CURLOPT_URL`.
    pub fn url(&self, url: &str) -> (r: Result<Setopt<'static>, Error>)
        ensures
            text_option(r, sys::CURLOPT_URL, url.spec_bytes()),
    {
        setopt_str(sys::CURLOPT_URL, url.as_bytes())
    }

    /// Configures the port number to connect to, instead of the one specified
    /// in the URL or the default of the protocol.
    pub fn port(&self, port: u16) -> (s: Setopt<'static>)
        ensures
            s@ == long_call(sys::CURLOPT_PORT, port as i64),
            well_typed(s@),
    {
        setopt_long(sys::CURLOPT_PORT, port as i64)
    }

    /// Provide the URL of a proxy to use.
    ///
    /// By default this option is not set and corresponds to `CURLOPT_PROXY`.
    pub fn proxy(&self, url: &str) -> (r: Result<Setopt<'static>, Error>)
        ensures
            text_option(r, sys::CURLOPT_PROXY, url.spec_bytes()),
    {
        setopt_str(sys::CURLOPT_PROXY, url.as_bytes())
    }

    /// Provide port number the proxy is listening on.
    ///
    /// By default this option is not set (the default port for the proxy
    /// protocol is used) and corresponds to `CURLOPT_PROXYPORT`.
    pub fn proxy_port(&self, port: u16) -> (s: Setopt<'static>)
        ensures
            s@ == long_call(sys::CURLOPT_PROXYPORT, port as i64),
            well_typed(s@),
    {
        setopt_long(sys::CURLOPT_PROXYPORT, port as i64)
    }

    /// Indicates the type of proxy being used.
    ///
    /// By default this option is `ProxyType::Http` and corresponds to
    /// `CURLOPT_PROXYTYPE`.
    pub fn proxy_type(&self, kind: ProxyType) -> (s: Setopt<'static>)
        ensures
            s@ == long_call(sys::CURLOPT_PROXYTYPE, kind.code()),
            well_typed(s@),
    {
        setopt_long(sys::CURLOPT_PROXYTYPE, kind.raw())
    }

    /// Provide a list of hosts that should not be proxied to.
    ///
    /// This string is a comma-separated list of hosts which should not use the
    /// proxy specified for connections. A single `*` character is also accepted
    /// as a wildcard for all hosts.
    ///
    /// By default this option is not set and corresponds to
    /// `CURLOPT_NOPROXY`.
    pub fn noproxy(&self, skip: &str) -> (r: Result<Setopt<'static>, Error>)
        ensures
            text_option(r, sys::CURLOPT_NOPROXY, skip.spec_bytes()),
    {
        setopt_str(sys::CURLOPT_NOPROXY, skip.as_bytes())
    }

    /// Inform curl whether it should tunnel all operations through the proxy.
    ///
    /// This essentially means that a `CONNECT` is sent to the proxy for all
    /// outbound requests.
    ///
    /// By default this option is `false` and corresponds to
    /// `CURLOPT_HTTPPROXYTUNNEL`.
    pub fn http_proxy_tunnel(&self, tunnel: bool) -> (s: Setopt<'static>)
        ensures
            s@ == long_call(sys::CURLOPT_HTTPPROXYTUNNEL, flag(tunnel)),
            well_typed(s@),
    {
        setopt_long(sys::CURLOPT_HTTPPROXYTUNNEL, flag_value(tunnel))
    }

    /// Tell curl which interface to bind to for an outgoing network interface.
    ///
    /// The interface name, IP address, or host name can be specified here.
    ///
    /// By default this option is not set and corresponds to
    /// `CURLOPT_INTERFACE`.
    pub fn interface(&self, interface: &str) -> (r: Result<Setopt<'static>, Error>)
        ensures
            text_option(r, sys::CURLOPT_INTERFACE, interface.spec_bytes()),
    {
        setopt_str(sys::CURLOPT_INTERFACE, interface.as_bytes())
    }

    /// Indicate which port should be bound to locally for this connection.
    ///
    /// By default this option is 0 (any port) and corresponds to
    /// `CURLOPT_LOCALPORT`.
    pub fn set_local_port(&self, port: u16) -> (s: Setopt<'static>)
        ensures
            s@ == long_call(sys::CURLOPT_LOCALPORT, port as i64),
            well_typed(s@),
    {
        setopt_long(sys::CURLOPT_LOCALPORT, port as i64)
    }

    /// Indicates the number of attempts libcurl will perform to find a working
    /// port number.
    ///
    /// By default this option is 1 and corresponds to
    /// `CURLOPT_LOCALPORTRANGE`.
    pub fn local_port_range(&self, range: u16) -> (s: Setopt<'static>)
        ensures
            s@ == long_call(sys::CURLOPT_LOCALPORTRANGE, range as i64),
            well_typed(s@),
    {
        setopt_long(sys::CURLOPT_LOCALPORTRANGE, range as i64)
    }

    /// Sets the timeout of how long name resolves will be kept in memory.
    ///
    /// This is distinct from DNS TTL options and is entirely speculative.
    ///
    /// By default this option is 60s and corresponds to
    /// `CURLOPT_DNS_CACHE_TIMEOUT`.
    pub fn dns_cache_timeout(&self, dur: Duration) -> (s: Setopt<'static>)
        ensures
            s@ == long_call(sys::CURLOPT_DNS_CACHE_TIMEOUT, dur@.0 as i64),
            well_typed(s@),
    {
        setopt_long(sys::CURLOPT_DNS_CACHE_TIMEOUT, dur.as_secs() as i64)
    }

    /// Specify the preferred receive buffer size, in bytes.
    ///
    /// This is treated as a request, not an order, and the main point of this
    /// is that the write callback may get called more often with smaller
    /// chunks.
    ///
    /// By default this option is the maximum write size and corresopnds to
    /// `CURLOPT_BUFFERSIZE`.
    pub fn buffer_size(&self, size: usize) -> (s: Setopt<'static>)
        ensures
            s@ == long_call(sys::CURLOPT_BUFFERSIZE, size as i64),
            well_typed(s@),
    {
        setopt_long(sys::CURLOPT_BUFFERSIZE, size as i64)
    }

    /// Configures whether the TCP_NODELAY option is set, or Nagle's algorithm
    /// is disabled.
    ///
    /// The purpose of Nagle's algorithm is to minimize the number of small
    /// packet's on the network, and disabling this may be less efficient in
    /// some situations.
    ///
    /// By default this option is `false` and corresponds to
    /// `CURLOPT_TCP_NODELAY`.
    pub fn tcp_nodelay(&self, enable: bool) -> (s: Setopt<'static>)
        ensures
            s@ == long_call(sys::CURLOPT_TCP_NODELAY, flag(enable)),
            well_typed(s@),
    {
        setopt_long(sys::CURLOPT_TCP_NODELAY, flag_value(enable))
    }

    /// Configures the scope for local IPv6 addresses.
    ///
    /// Sets the scope_id value to use when connecting to IPv6 or link-local
    /// addresses.
    ///
    /// By default this value is 0 and corresponds to `CURLOPT_ADDRESS_SCOPE`
    pub fn address_scope(&self, scope: u32) -> (s: Setopt<'static>)
        ensures
            s@ == long_call(sys::CURLOPT_ADDRESS_SCOPE, scope as i64),
            well_typed(s@),
    {
        setopt_long(sys::CURLOPT_ADDRESS_SCOPE, scope as i64)
    }

    /// Configures the username to pass as authentication for this connection.
    ///
    /// By default this value is not set and corresponds to `CURLOPT_USERNAME`.
    pub fn username(&self, user: &str) -> (r: Result<Setopt<'static>, Error>)
        ensures
            text_option(r, sys::CURLOPT_USERNAME, user.spec_bytes()),
    {
        setopt_str(sys::CURLOPT_USERNAME, user.as_bytes())
    }

    /// Configures the password to pass as authentication for this connection.
    ///
    /// By default this value is not set and corresponds to `CURLOPT_PASSWORD`.
    pub fn password(&self, pass: &str) -> (r: Result<Setopt<'static>, Error>)
        ensures
            text_option(r, sys::CURLOPT_PASSWORD, pass.spec_bytes()),
    {
        setopt_str(sys::CURLOPT_PASSWORD, pass.as_bytes())
    }

    /// Configures the proxy username to pass as authentication for this
    /// connection.
    ///
    /// By default this value is not set and corresponds to
    /// `CURLOPT_PROXYUSERNAME`.
    pub fn proxy_username(&self, user: &str) -> (r: Result<Setopt<'static>, Error>)
        ensures
            text_option(r, sys::CURLOPT_PROXYUSERNAME, user.spec_bytes()),
    {
        setopt_str(sys::CURLOPT_PROXYUSERNAME, user.as_bytes())
    }

    /// Configures the proxy password to pass as authentication for this
    /// connection.
    ///
    /// By default this value is not set and corresponds to
    /// `CURLOPT_PROXYPASSWORD`.
    pub fn proxy_password(&self, pass: &str) -> (r: Result<Setopt<'static>, Error>)
        ensures
            text_option(r, sys::CURLOPT_PROXYPASSWORD, pass.spec_bytes()),
    {
        setopt_str(sys::CURLOPT_PROXYPASSWORD, pass.as_bytes())
    }

    /// Indicates whether the referer header is automatically updated
    ///
    /// By default this option is `false` and corresponds to
    /// `CURLOPT_AUTOREFERER`.
    pub fn autoreferer(&self, enable: bool) -> (s: Setopt<'static>)
        ensures
            s@ == long_call(sys::CURLOPT_AUTOREFERER, flag(enable)),
            well_typed(s@),
    {
        setopt_long(sys::CURLOPT_AUTOREFERER, flag_value(enable))
    }

    /// Enables automatic decompression of HTTP downloads.
    ///
    /// Sets the contents of the Accept-Encoding header sent in an HTTP request.
    /// This enables decoding of a response with Content-Encoding.
    ///
    /// Currently supported encoding are `identity`, `zlib`, and `gzip`. A
    /// zero-length string passed in will send all accepted encodings.
    ///
    /// By default this option is not set and corresponds to
    /// `CURLOPT_ACCEPT_ENCODING`.
    pub fn accept_encoding(&self, encoding: &str) -> (r: Result<Setopt<'static>, Error>)
        ensures
            text_option(r, sys::CURLOPT_ACCEPT_ENCODING, encoding.spec_bytes()),
    {
        setopt_str(sys::CURLOPT_ACCEPT_ENCODING, encoding.as_bytes())
    }

    /// Request the HTTP Transfer Encoding.
    ///
    /// By default this option is `false` and corresponds to
    /// `CURLOPT_TRANSFER_ENCODING`.
    pub fn transfer_encoding(&self, enable: bool) -> (s: Setopt<'static>)
        ensures
            s@ == long_call(sys::CURLOPT_TRANSFER_ENCODING, flag(enable)),
            well_typed(s@),
    {
        setopt_long(sys::CURLOPT_TRANSFER_ENCODING, flag_value(enable))
    }

    /// Follow HTTP 3xx redirects.
    ///
    /// Indicates whether any `Location` headers in the response should get
    /// followed.
    ///
    /// By default this option is `false` and corresponds to
    /// `CURLOPT_FOLLOWLOCATION`.
    pub fn follow_location(&self, enable: bool) -> (s: Setopt<'static>)
        ensures
            s@ == long_call(sys::CURLOPT_FOLLOWLOCATION, flag(enable)),
            well_typed(s@),
    {
        setopt_long(sys::CURLOPT_FOLLOWLOCATION, flag_value(enable))
    }

    /// Send credentials to hosts other than the first as well.
    ///
    /// Sends username/password credentials even when the host changes as part
    /// of a redirect.
    ///
    /// By default this option is `false` and corresponds to
    /// `CURLOPT_UNRESTRICTED_AUTH`.
    pub fn unrestricted_auth(&self, enable: bool) -> (s: Setopt<'static>)
        ensures
            s@ == long_call(sys::CURLOPT_UNRESTRICTED_AUTH, flag(enable)),
            well_typed(s@),
    {
        setopt_long(sys::CURLOPT_UNRESTRICTED_AUTH, flag_value(enable))
    }

    /// Set the maximum number of redirects allowed.
    ///
    /// A value of 0 will refuse any redirect.
    ///
    /// By default this option is `-1` (unlimited) and corresponds to
    /// `CURLOPT_MAXREDIRS`.
    pub fn max_redirections(&self, max: u32) -> (s: Setopt<'static>)
        ensures
            s@ == long_call(sys::CURLOPT_MAXREDIRS, max as i64),
            well_typed(s@),
    {
        setopt_long(sys::CURLOPT_MAXREDIRS, max as i64)
    }

    /// Make an HTTP PUT request.
    ///
    /// By default this option is `false` and corresponds to `CURLOPT_PUT`.
    pub fn put(&self, enable: bool) -> (s: Setopt<'static>)
        ensures
            s@ == long_call(sys::CURLOPT_PUT, flag(enable)),
            well_typed(s@),
    {
        setopt_long(sys::CURLOPT_PUT, flag_value(enable))
    }

    /// Make an HTTP POST request.
    ///
    /// This will also make the library use the
    /// `Content-Type: application/x-www-form-urlencoded` header.
    ///
    /// POST data can be specified through `post_fields` or by specifying a read
    /// function.
    ///
    /// By default this option is `false` and corresponds to `CURLOPT_POST`.
    pub fn post(&self, enable: bool) -> (s: Setopt<'static>)
        ensures
            s@ == long_call(sys::CURLOPT_POST, flag(enable)),
            well_typed(s@),
    {
        setopt_long(sys::CURLOPT_POST, flag_value(enable))
    }

    /// Sets the HTTP referer header
    ///
    /// By default this option is not set and corresponds to `CURLOPT_REFERER`.
    pub fn referer(&self, referer: &str) -> (r: Result<Setopt<'static>, Error>)
        ensures
            text_option(r, sys::CURLOPT_REFERER, referer.spec_bytes()),
    {
        setopt_str(sys::CURLOPT_REFERER, referer.as_bytes())
    }

    /// Sets the HTTP user-agent header
    ///
    /// By default this option is not set and corresponds to
    /// `CURLOPT_USERAGENT`.
    pub fn useragent(&self, useragent: &str) -> (r: Result<Setopt<'static>, Error>)
        ensures
            text_option(r, sys::CURLOPT_USERAGENT, useragent.spec_bytes()),
    {
        setopt_str(sys::CURLOPT_USERAGENT, useragent.as_bytes())
    }

    /// Configures the data to send with a POST request, and its size.
    ///
    /// The data is not copied: libcurl reads it from the caller's buffer.
    /// The size is set before the pointer so that libcurl knows how much to
    /// read.
    ///
    /// By default this option is not set and corresponds to
    /// `CURLOPT_POSTFIELDS`.
    pub fn post_fields<'a>(&self, data: &'a [u8]) -> (plan: Vec<Setopt<'a>>)
        ensures
            calls(plan@) == post_field_size_calls(data@.len() as u64) + seq![
                Call { option: sys::CURLOPT_POSTFIELDS, arg: Arg::Data(data@) },
            ],
            all_well_typed(calls(plan@)),
    {
        let mut plan = self.post_field_size(data.len() as u64);
        plan.push(Setopt { option: sys::CURLOPT_POSTFIELDS, value: OptValue::Data(data) });
        assert(calls(plan@) =~= post_field_size_calls(data@.len() as u64) + seq![
            Call { option: sys::CURLOPT_POSTFIELDS, arg: Arg::Data(data@) },
        ]);
        plan
    }

    /// Configures the data to send with a POST request, which libcurl copies.
    ///
    /// The size is set before the data so that libcurl knows how much to
    /// copy.
    ///
    /// By default this option is not set and corresponds to
    /// `CURLOPT_COPYPOSTFIELDS`.
    pub fn post_fields_copy<'a>(&self, data: &'a [u8]) -> (plan: Vec<Setopt<'a>>)
        ensures
            calls(plan@) == post_field_size_calls(data@.len() as u64) + seq![
                Call { option: sys::CURLOPT_COPYPOSTFIELDS, arg: Arg::Data(data@) },
            ],
            all_well_typed(calls(plan@)),
    {
        let mut plan = self.post_field_size(data.len() as u64);
        plan.push(Setopt { option: sys::CURLOPT_COPYPOSTFIELDS, value: OptValue::Data(data) });
        assert(calls(plan@) =~= post_field_size_calls(data@.len() as u64) + seq![
            Call { option: sys::CURLOPT_COPYPOSTFIELDS, arg: Arg::Data(data@) },
        ]);
        plan
    }

    /// Configures the size of data that's going to be uploaded as part of a
    /// POST operation.
    ///
    /// Any earlier data pointer is cleared first, so that libcurl never reads
    /// past a buffer.
    ///
    /// By default this option is not set and corresponds to
    /// `CURLOPT_POSTFIELDSIZE_LARGE`.
    pub fn post_field_size<'a>(&self, size: u64) -> (plan: Vec<Setopt<'a>>)
        ensures
            calls(plan@) == post_field_size_calls(size),
            all_well_typed(calls(plan@)),
    {
        let mut plan: Vec<Setopt<'a>> = Vec::new();
        plan.push(Setopt { option: sys::CURLOPT_POSTFIELDS, value: OptValue::Null });
        plan.push(setopt_off_t(sys::CURLOPT_POSTFIELDSIZE_LARGE, size as i64));
        assert(calls(plan@) =~= post_field_size_calls(size));
        plan
    }

    /// Add some headers to this HTTP request.
    ///
    /// If you add a header that is otherwise used internally, the value here
    /// takes precedence. If a header is added with no content (like `Accept:`)
    /// the internally the header will get disabled. To add a header with no
    /// content, use the form `MyHeader;` (not the trailing semicolon).
    ///
    /// Headers must not be CRLF terminated. Many replaced headers have common
    /// shortcuts which should be prefered.
    ///
    /// The handle keeps the list, and libcurl reads it from there.
    ///
    /// By default this option is not set and corresponds to
    /// `CURLOPT_HTTPHEADER`.
    pub fn http_headers(&mut self, list: List) -> (s: Setopt<'static>)
        ensures
            final(self).headers() == list@,
            s@ == (Call { option: sys::CURLOPT_HTTPHEADER, arg: Arg::HeaderList }),
            well_typed(s@),
    {
        self.header_list = list;
        Setopt { option: sys::CURLOPT_HTTPHEADER, value: OptValue::HeaderList }
    }


    /// Set the contents of the HTTP Cookie header.
    ///
    /// Pass a string of the form `name=contents` for one cookie value or
    /// `name1=val1; name2=val2` for multiple values.
    ///
    /// Using this option multiple times will only make the latest string
    /// override the previous ones. This option will not enable the cookie
    /// engine, use `cookie_file` or `cookie_jar` to do that.
    ///
    /// By default this option is not set and corresponds to `CURLOPT_COOKIE`.
    pub fn cookie(&self, cookie: &str) -> (r: Result<Setopt<'static>, Error>)
        ensures
            text_option(r, sys::CURLOPT_COOKIE, cookie.spec_bytes()),
    {
        setopt_str(sys::CURLOPT_COOKIE, cookie.as_bytes())
    }

    /// Set the file name to read cookies from.
    ///
    /// The cookie data can be in either the old Netscape / Mozilla cookie data
    /// format or just regular HTTP headers (Set-Cookie style) dumped to a file.
    ///
    /// This also enables the cookie engine, making libcurl parse and send
    /// cookies on subsequent requests with this handle.
    ///
    /// Given an empty or non-existing file or by passing the empty string ("")
    /// to this option, you can enable the cookie engine without reading any
    /// initial cookies.
    ///
    /// If you use this option multiple times, you just add more files to read.
    /// Subsequent files will add more cookies.
    ///
    /// By default this option is not set and corresponds to
    /// `CURLOPT_COOKIEFILE`.
    ///
    /// The path is given by the bytes that name it on the system.
    pub fn cookie_file(&self, file: &[u8]) -> (r: Result<Setopt<'static>, Error>)
        ensures
            text_option(r, sys::CURLOPT_COOKIEFILE, file@),
    {
        setopt_str(sys::CURLOPT_COOKIEFILE, file)
    }

    /// Set the file name to store cookies to.
    ///
    /// This will make libcurl write all internally known cookies to the file
    /// when this handle is dropped. If no cookies are known, no file will be
    /// created. Specify "-" as filename to instead have the cookies written to
    /// stdout. Using this option also enables cookies for this session, so if
    /// you for example follow a location it will make matching cookies get sent
    /// accordingly.
    ///
    /// Note that libcurl doesn't read any cookies from the cookie jar. If you
    /// want to read cookies from a file, use `cookie_file`.
    ///
    /// By default this option is not set and corresponds to
    /// `CURLOPT_COOKIEJAR`.
    ///
    /// The path is given by the bytes that name it on the system.
    pub fn cookie_jar(&self, file: &[u8]) -> (r: Result<Setopt<'static>, Error>)
        ensures
            text_option(r, sys::CURLOPT_COOKIEJAR, file@),
    {
        setopt_str(sys::CURLOPT_COOKIEJAR, file)
    }

    /// Start a new cookie session
    ///
    /// Marks this as a new cookie "session". It will force libcurl to ignore
    /// all cookies it is about to load that are "session cookies" from the
    /// previous session. By default, libcurl always stores and loads all
    /// cookies, independent if they are session cookies or not. Session cookies
    /// are cookies without expiry date and they are meant to be alive and
    /// existing for this "session" only.
    ///
    /// By default this option is `false` and corresponds to
    /// `CURLOPT_COOKIESESSION`.
    pub fn cookie_session(&self, session: bool) -> (s: Setopt<'static>)
        ensures
            s@ == long_call(sys::CURLOPT_COOKIESESSION, flag(session)),
            well_typed(s@),
    {
        setopt_long(sys::CURLOPT_COOKIESESSION, flag_value(session))
    }

    /// Add to or manipulate cookies held in memory.
    ///
    /// Such a cookie can be either a single line in Netscape / Mozilla format
    /// or just regular HTTP-style header (Set-Cookie: ...) format. This will
    /// also enable the cookie engine. This adds that single cookie to the
    /// internal cookie store.
    ///
    /// Exercise caution if you are using this option and multiple transfers may
    /// occur. If you use the Set-Cookie format and don't specify a domain then
    /// the cookie is sent for any domain (even after redirects are followed)
    /// and cannot be modified by a server-set cookie. If a server sets a cookie
    /// of the same name (or maybe you've imported one) then both will be sent
    /// on a future transfer to that server, likely not what you intended.
    /// address these issues set a domain in Set-Cookie or use the Netscape
    /// format.
    ///
    /// Additionally, there are commands available that perform actions if you
    /// pass in these exact strings:
    ///
    /// * "ALL" - erases all cookies held in memory
    /// * "SESS" - erases all session cookies held in memory
    /// * "FLUSH" - write all known cookies to the specified cookie jar
    /// * "RELOAD" - reread all cookies from the cookie file
    ///
    /// By default this options corresponds to `CURLOPT_COOKIELIST`
    pub fn cookie_list(&self, cookie: &str) -> (r: Result<Setopt<'static>, Error>)
        ensures
            text_option(r, sys::CURLOPT_COOKIELIST, cookie.spec_bytes()),
    {
        setopt_str(sys::CURLOPT_COOKIELIST, cookie.as_bytes())
    }

    /// Ask for a HTTP GET request.
    ///
    /// By default this option is `false` and corresponds to `CURLOPT_HTTPGET`.
    pub fn get(&self, enable: bool) -> (s: Setopt<'static>)
        ensures
            s@ == long_call(sys::CURLOPT_HTTPGET, flag(enable)),
            well_typed(s@),
    {
        setopt_long(sys::CURLOPT_HTTPGET, flag_value(enable))
    }

    /// Ignore the content-length header.
    ///
    /// By default this option is `false` and corresponds to
    /// `CURLOPT_IGNORE_CONTENT_LENGTH`.
    pub fn ignore_content_length(&self, ignore: bool) -> (s: Setopt<'static>)
        ensures
            s@ == long_call(sys::CURLOPT_IGNORE_CONTENT_LENGTH, flag(ignore)),
            well_typed(s@),
    {
        setopt_long(sys::CURLOPT_IGNORE_CONTENT_LENGTH, flag_value(ignore))
    }

    /// Enable or disable HTTP content decoding.
    ///
    /// By default this option is `true` and corresponds to
    /// `CURLOPT_HTTP_CONTENT_DECODING`.
    pub fn http_content_decoding(&self, enable: bool) -> (s: Setopt<'static>)
        ensures
            s@ == long_call(sys::CURLOPT_HTTP_CONTENT_DECODING, flag(enable)),
            well_typed(s@),
    {
        setopt_long(sys::CURLOPT_HTTP_CONTENT_DECODING, flag_value(enable))
    }

    /// Enable or disable HTTP transfer decoding.
    ///
    /// By default this option is `true` and corresponds to
    /// `CURLOPT_HTTP_TRANSFER_DECODING`.
    pub fn http_transfer_decoding(&self, enable: bool) -> (s: Setopt<'static>)
        ensures
            s@ == long_call(sys::CURLOPT_HTTP_TRANSFER_DECODING, flag(enable)),
            well_typed(s@),
    {
        setopt_long(sys::CURLOPT_HTTP_TRANSFER_DECODING, flag_value(enable))
    }

    /// Indicates the range that this request should retrieve.
    ///
    /// The string provided should be of the form `N-M` where either `N` or `M`
    /// can be left out. For HTTP transfers multiple ranges separated by commas
    /// are also accepted.
    ///
    /// By default this option is not set and corresponds to `CURLOPT_RANGE`.
    pub fn range(&self, range: &str) -> (r: Result<Setopt<'static>, Error>)
        ensures
            text_option(r, sys::CURLOPT_RANGE, range.spec_bytes()),
    {
        setopt_str(sys::CURLOPT_RANGE, range.as_bytes())
    }

    /// Set a point to resume transfer from
    ///
    /// Specify the offset in bytes you want the transfer to start from.
    ///
    /// By default this option is 0 and corresponds to
    /// `CURLOPT_RESUME_FROM_LARGE`.
    pub fn resume_from(&self, from: u64) -> (s: Setopt<'static>)
        ensures
            s@ == off_t_call(sys::CURLOPT_RESUME_FROM_LARGE, from as i64),
            well_typed(s@),
    {
        setopt_off_t(sys::CURLOPT_RESUME_FROM_LARGE, from as i64)
    }

    /// Set a custom request string
    ///
    /// Specifies that a custom request will be made (e.g. a custom HTTP
    /// method). This does not change how libcurl performs internally, just
    /// changes the string sent to the server.
    ///
    /// By default this option is not set and corresponds to
    /// `CURLOPT_CUSTOMREQUEST`.
    pub fn custom_request(&self, request: &str) -> (r: Result<Setopt<'static>, Error>)
        ensures
            text_option(r, sys::CURLOPT_CUSTOMREQUEST, request.spec_bytes()),
    {
        setopt_str(sys::CURLOPT_CUSTOMREQUEST, request.as_bytes())
    }

    /// Get the modification time of the remote resource
    ///
    /// If true, libcurl will attempt to get the modification time of the
    /// remote document in this operation. This requires that the remote server
    /// sends the time or replies to a time querying command. The `filetime`
    /// function can be used after a transfer to extract the received time (if
    /// any).
    ///
    /// By default this option is `false` and corresponds to `CURLOPT_FILETIME`
    pub fn fetch_filetime(&self, fetch: bool) -> (s: Setopt<'static>)
        ensures
            s@ == long_call(sys::CURLOPT_FILETIME, flag(fetch)),
            well_typed(s@),
    {
        setopt_long(sys::CURLOPT_FILETIME, flag_value(fetch))
    }

    /// Indicate whether to download the request without getting the body
    ///
    /// This is useful, for example, for doing a HEAD request.
    ///
    /// By default this option is `false` and corresponds to `CURLOPT_NOBODY`.
    pub fn nobody(&self, enable: bool) -> (s: Setopt<'static>)
        ensures
            s@ == long_call(sys::CURLOPT_NOBODY, flag(enable)),
            well_typed(s@),
    {
        setopt_long(sys::CURLOPT_NOBODY, flag_value(enable))
    }

    /// Set the size of the input file to send off.
    ///
    /// By default this option is not set and corresponds to
    /// `CURLOPT_INFILESIZE_LARGE`.
    pub fn in_filesize(&self, size: u64) -> (s: Setopt<'static>)
        ensures
            s@ == off_t_call(sys::CURLOPT_INFILESIZE_LARGE, size as i64),
            well_typed(s@),
    {
        setopt_off_t(sys::CURLOPT_INFILESIZE_LARGE, size as i64)
    }

    /// Enable or disable data upload.
    ///
    /// This means that a PUT request will be made for HTTP and probably wants
    /// to be combined with the read callback as well as the `in_filesize`
    /// method.
    ///
    /// By default this option is `false` and corresponds to `CURLOPT_UPLOAD`.
    pub fn upload(&self, enable: bool) -> (s: Setopt<'static>)
        ensures
            s@ == long_call(sys::CURLOPT_UPLOAD, flag(enable)),
            well_typed(s@),
    {
        setopt_long(sys::CURLOPT_UPLOAD, flag_value(enable))
    }

    /// Configure the maximum file size to download.
    ///
    /// By default this option is not set and corresponds to
    /// `CURLOPT_MAXFILESIZE_LARGE`.
    pub fn max_filesize(&self, size: u64) -> (s: Setopt<'static>)
        ensures
            s@ == off_t_call(sys::CURLOPT_MAXFILESIZE_LARGE, size as i64),
            well_typed(s@),
    {
        setopt_off_t(sys::CURLOPT_MAXFILESIZE_LARGE, size as i64)
    }

    /// Selects a condition for a time request.
    ///
    /// This value indicates how the `time_value` option is interpreted.
    ///
    /// By default this option is not set and corresponds to
    /// `CURLOPT_TIMECONDITION`.
    pub fn time_condition(&self, cond: TimeCondition) -> (s: Setopt<'static>)
        ensures
            s@ == long_call(sys::CURLOPT_TIMECONDITION, cond.code()),
            well_typed(s@),
    {
        setopt_long(sys::CURLOPT_TIMECONDITION, cond.raw())
    }

    /// Sets the time value for a conditional request.
    ///
    /// The value here should be the number of seconds elapsed since January 1,
    /// 1970. To pass how to interpret this value, use `time_condition`.
    ///
    /// By default this option is not set and corresponds to
    /// `CURLOPT_TIMEVALUE`.
    pub fn time_value(&self, val: i64) -> (s: Setopt<'static>)
        ensures
            s@ == long_call(sys::CURLOPT_TIMEVALUE, val as i64),
            well_typed(s@),
    {
        setopt_long(sys::CURLOPT_TIMEVALUE, val as i64)
    }

    /// Set maximum time the request is allowed to take.
    ///
    /// Normally, name lookups can take a considerable time and limiting
    /// operations to less than a few minutes risk aborting perfectly normal
    /// operations.
    ///
    /// If libcurl is built to use the standard system name resolver, that
    /// portion of the transfer will still use full-second resolution for
    /// timeouts with a minimum timeout allowed of one second.
    ///
    /// In unix-like systems, this might cause signals to be used unless
    /// `nosignal` is set.
    ///
    /// Since this puts a hard limit for how long time a request is allowed to
    /// take, it has limited use in dynamic use cases with varying transfer
    /// times. You are then advised to explore `low_speed_limit`,
    /// `low_speed_time` or using `progress_function` to implement your own
    /// timeout logic.
    ///
    /// By default this option is not set and corresponds to
    /// `CURLOPT_TIMEOUT_MS`.
    pub fn timeout(&self, timeout: Duration) -> (s: Setopt<'static>)
        requires
            timeout.millis() <= u64::MAX,
        ensures
            s@ == long_call(sys::CURLOPT_TIMEOUT_MS, timeout.millis() as i64),
            s@ == long_call(
                sys::CURLOPT_TIMEOUT_MS,
                (timeout@.0 * 1000 + timeout@.1 / 1_000_000) as i64,
            ),
            well_typed(s@),
    {
        let ms: u64 = timeout.as_secs() * 1000 + (timeout.subsec_nanos() / 1_000_000) as u64;
        setopt_long(sys::CURLOPT_TIMEOUT_MS, ms as i64)
    }

    /// Set the low speed limit in bytes per second.
    ///
    /// This specifies the average transfer speed in bytes per second that the
    /// transfer should be below during `low_speed_time` for libcurl to consider
    /// it to be too slow and abort.
    ///
    /// By default this option is not set and corresponds to
    /// `CURLOPT_LOW_SPEED_LIMIT`.
    pub fn low_speed_limit(&self, limit: u32) -> (s: Setopt<'static>)
        ensures
            s@ == long_call(sys::CURLOPT_LOW_SPEED_LIMIT, limit as i64),
            well_typed(s@),
    {
        setopt_long(sys::CURLOPT_LOW_SPEED_LIMIT, limit as i64)
    }

    /// Set the low speed time period.
    ///
    /// Specifies the window of time for which if the transfer rate is below
    /// `low_speed_limit` the request will be aborted.
    ///
    /// By default this option is not set and corresponds to
    /// `CURLOPT_LOW_SPEED_TIME`.
    pub fn low_speed_time(&self, dur: Duration) -> (s: Setopt<'static>)
        ensures
            s@ == long_call(sys::CURLOPT_LOW_SPEED_TIME, dur@.0 as i64),
            well_typed(s@),
    {
        setopt_long(sys::CURLOPT_LOW_SPEED_TIME, dur.as_secs() as i64)
    }

    /// Rate limit data upload speed
    ///
    /// If an upload exceeds this speed (counted in bytes per second) on
    /// cumulative average during the transfer, the transfer will pause to keep
    /// the average rate less than or equal to the parameter value.
    ///
    /// By default this option is not set (unlimited speed) and corresponds to
    /// `CURLOPT_MAX_SEND_SPEED_LARGE`.
    pub fn max_send_speed(&self, speed: u64) -> (s: Setopt<'static>)
        ensures
            s@ == off_t_call(sys::CURLOPT_MAX_SEND_SPEED_LARGE, speed as i64),
            well_typed(s@),
    {
        setopt_off_t(sys::CURLOPT_MAX_SEND_SPEED_LARGE, speed as i64)
    }

    /// Rate limit data download speed
    ///
    /// If a download exceeds this speed (counted in bytes per second) on
    /// cumulative average during the transfer, the transfer will pause to keep
    /// the average rate less than or equal to the parameter value.
    ///
    /// By default this option is not set (unlimited speed) and corresponds to
    /// `CURLOPT_MAX_RECV_SPEED_LARGE`.
    pub fn max_recv_speed(&self, speed: u64) -> (s: Setopt<'static>)
        ensures
            s@ == off_t_call(sys::CURLOPT_MAX_RECV_SPEED_LARGE, speed as i64),
            well_typed(s@),
    {
        setopt_off_t(sys::CURLOPT_MAX_RECV_SPEED_LARGE, speed as i64)
    }

    /// Set the maximum connection cache size.
    ///
    /// The set amount will be the maximum number of simultaneously open
    /// persistent connections that libcurl may cache in the pool associated
    /// with this handle. The default is 5, and there isn't much point in
    /// changing this value unless you are perfectly aware of how this works and
    /// changes libcurl's behaviour. This concerns connections using any of the
    /// protocols that support persistent connections.
    ///
    /// When reaching the maximum limit, curl closes the oldest one in the cache
    /// to prevent increasing the number of open connections.
    ///
    /// By default this option is set to 5 and corresponds to
    /// `CURLOPT_MAXCONNECTS`
    pub fn max_connects(&self, max: u32) -> (s: Setopt<'static>)
        ensures
            s@ == long_call(sys::CURLOPT_MAXCONNECTS, max as i64),
            well_typed(s@),
    {
        setopt_long(sys::CURLOPT_MAXCONNECTS, max as i64)
    }

    /// Force a new connection to be used.
    ///
    /// Makes the next transfer use a new (fresh) connection by force instead of
    /// trying to re-use an existing one. This option should be used with
    /// caution and only if you understand what it does as it may seriously
    /// impact performance.
    ///
    /// By default this option is `false` and corresponds to
    /// `CURLOPT_FRESH_CONNECT`.
    pub fn fresh_connect(&self, enable: bool) -> (s: Setopt<'static>)
        ensures
            s@ == long_call(sys::CURLOPT_FRESH_CONNECT, flag(enable)),
            well_typed(s@),
    {
        setopt_long(sys::CURLOPT_FRESH_CONNECT, flag_value(enable))
    }

    /// Make connection get closed at once after use.
    ///
    /// Makes libcurl explicitly close the connection when done with the
    /// transfer. Normally, libcurl keeps all connections alive when done with
    /// one transfer in case a succeeding one follows that can re-use them.
    /// This option should be used with caution and only if you understand what
    /// it does as it can seriously impact performance.
    ///
    /// By default this option is `false` and corresponds to
    /// `CURLOPT_FORBID_REUSE`.
    pub fn forbid_reuse(&self, enable: bool) -> (s: Setopt<'static>)
        ensures
            s@ == long_call(sys::CURLOPT_FORBID_REUSE, flag(enable)),
            well_typed(s@),
    {
        setopt_long(sys::CURLOPT_FORBID_REUSE, flag_value(enable))
    }

    /// Timeout for the connect phase
    ///
    /// This is the maximum time that you allow the connection phase to the
    /// server to take. This only limits the connection phase, it has no impact
    /// once it has connected.
    ///
    /// By default this value is 300 seconds and corresponds to
    /// `CURLOPT_CONNECTTIMEOUT_MS`.
    pub fn connect_timeout(&self, timeout: Duration) -> (s: Setopt<'static>)
        requires
            timeout.millis() <= u64::MAX,
        ensures
            s@ == long_call(sys::CURLOPT_CONNECTTIMEOUT_MS, timeout.millis() as i64),
            s@ == long_call(
                sys::CURLOPT_CONNECTTIMEOUT_MS,
                (timeout@.0 * 1000 + timeout@.1 / 1_000_000) as i64,
            ),
            well_typed(s@),
    {
        let ms: u64 = timeout.as_secs() * 1000 + (timeout.subsec_nanos() / 1_000_000) as u64;
        setopt_long(sys::CURLOPT_CONNECTTIMEOUT_MS, ms as i64)
    }

    /// Specify which IP protocol version to use
    ///
    /// Allows an application to select what kind of IP addresses to use when
    /// resolving host names. This is only interesting when using host names
    /// that resolve addresses using more than one version of IP.
    ///
    /// By default this value is "any" and corresponds to `CURLOPT_IPRESOLVE`.
    pub fn ip_resolve(&self, resolve: IpResolve) -> (s: Setopt<'static>)
        ensures
            s@ == long_call(sys::CURLOPT_IPRESOLVE, resolve.code()),
            well_typed(s@),
    {
        setopt_long(sys::CURLOPT_IPRESOLVE, resolve.raw())
    }

    /// Configure whether to stop when connected to target server
    ///
    /// When enabled it tells the library to perform all the required proxy
    /// authentication and connection setup, but no data transfer, and then
    /// return.
    ///
    /// The option can be used to simply test a connection to a server.
    ///
    /// By default this value is `false` and corresponds to
    /// `CURLOPT_CONNECT_ONLY`.
    pub fn connect_only(&self, enable: bool) -> (s: Setopt<'static>)
        ensures
            s@ == long_call(sys::CURLOPT_CONNECT_ONLY, flag(enable)),
            well_typed(s@),
    {
        setopt_long(sys::CURLOPT_CONNECT_ONLY, flag_value(enable))
    }

    /// Sets the SSL client certificate.
    ///
    /// The string should be the file name of your client certificate. The
    /// default format is "P12" on Secure Transport and "PEM" on other engines,
    /// and can be changed with `ssl_cert_type`.
    ///
    /// With NSS or Secure Transport, this can also be the nickname of the
    /// certificate you wish to authenticate with as it is named in the security
    /// database. If you want to use a file from the current directory, please
    /// precede it with "./" prefix, in order to avoid confusion with a
    /// nickname.
    ///
    /// When using a client certificate, you most likely also need to provide a
    /// private key with `ssl_key`.
    ///
    /// By default this option is not set and corresponds to `CURLOPT_SSLCERT`.
    ///
    /// The path is given by the bytes that name it on the system.
    pub fn ssl_cert(&self, cert: &[u8]) -> (r: Result<Setopt<'static>, Error>)
        ensures
            text_option(r, sys::CURLOPT_SSLCERT, cert@),
    {
        setopt_str(sys::CURLOPT_SSLCERT, cert)
    }

    /// Specify type of the client SSL certificate.
    ///
    /// The string should be the format of your certificate. Supported formats
    /// are "PEM" and "DER", except with Secure Transport. OpenSSL (versions
    /// 0.9.3 and later) and Secure Transport (on iOS 5 or later, or OS X 10.7
    /// or later) also support "P12" for PKCS#12-encoded files.
    ///
    /// By default this option is "PEM" and corresponds to
    /// `CURLOPT_SSLCERTTYPE`.
    pub fn ssl_cert_type(&self, kind: &str) -> (r: Result<Setopt<'static>, Error>)
        ensures
            text_option(r, sys::CURLOPT_SSLCERTTYPE, kind.spec_bytes()),
    {
        setopt_str(sys::CURLOPT_SSLCERTTYPE, kind.as_bytes())
    }

    /// Specify private keyfile for TLS and SSL client cert.
    ///
    /// The string should be the file name of your private key. The default
    /// format is "PEM" and can be changed with `ssl_key_type`.
    ///
    /// (iOS and Mac OS X only) This option is ignored if curl was built against
    /// Secure Transport. Secure Transport expects the private key to be already
    /// present in the keychain or PKCS#12 file containing the certificate.
    ///
    /// By default this option is not set and corresponds to `CURLOPT_SSLKEY`.
    ///
    /// The path is given by the bytes that name it on the system.
    pub fn ssl_key(&self, key: &[u8]) -> (r: Result<Setopt<'static>, Error>)
        ensures
            text_option(r, sys::CURLOPT_SSLKEY, key@),
    {
        setopt_str(sys::CURLOPT_SSLKEY, key)
    }

    /// Set type of the private key file.
    ///
    /// The string should be the format of your private key. Supported formats
    /// are "PEM", "DER" and "ENG".
    ///
    /// The format "ENG" enables you to load the private key from a crypto
    /// engine. In this case `ssl_key` is used as an identifier passed to
    /// the engine. You have to set the crypto engine with `ssl_engine`.
    /// "DER" format key file currently does not work because of a bug in
    /// OpenSSL.
    ///
    /// By default this option is "PEM" and corresponds to
    /// `CURLOPT_SSLKEYTYPE`.
    pub fn ssl_key_type(&self, kind: &str) -> (r: Result<Setopt<'static>, Error>)
        ensures
            text_option(r, sys::CURLOPT_SSLKEYTYPE, kind.spec_bytes()),
    {
        setopt_str(sys::CURLOPT_SSLKEYTYPE, kind.as_bytes())
    }

    /// Set passphrase to private key.
    ///
    /// This will be used as the password required to use the `ssl_key`.
    /// You never needed a pass phrase to load a certificate but you need one to
    /// load your private key.
    ///
    /// By default this option is not set and corresponds to
    /// `CURLOPT_KEYPASSWD`.
    pub fn key_password(&self, password: &str) -> (r: Result<Setopt<'static>, Error>)
        ensures
            text_option(r, sys::CURLOPT_KEYPASSWD, password.spec_bytes()),
    {
        setopt_str(sys::CURLOPT_KEYPASSWD, password.as_bytes())
    }

    /// Set the SSL engine identifier.
    ///
    /// This will be used as the identifier for the crypto engine you want to
    /// use for your private key.
    ///
    /// By default this option is not set and corresponds to
    /// `CURLOPT_SSLENGINE`.
    pub fn ssl_engine(&self, engine: &str) -> (r: Result<Setopt<'static>, Error>)
        ensures
            text_option(r, sys::CURLOPT_SSLENGINE, engine.spec_bytes()),
    {
        setopt_str(sys::CURLOPT_SSLENGINE, engine.as_bytes())
    }

    /// Make this handle's SSL engine the default.
    ///
    /// By default this option is not set and corresponds to
    /// `CURLOPT_SSLENGINE_DEFAULT`.
    pub fn ssl_engine_default(&self, enable: bool) -> (s: Setopt<'static>)
        ensures
            s@ == long_call(sys::CURLOPT_SSLENGINE_DEFAULT, flag(enable)),
            well_typed(s@),
    {
        setopt_long(sys::CURLOPT_SSLENGINE_DEFAULT, flag_value(enable))
    }

    /// Set preferred TLS/SSL version.
    ///
    /// By default this option is not set and corresponds to
    /// `CURLOPT_SSLVERSION`.
    pub fn ssl_version(&self, version: SslVersion) -> (s: Setopt<'static>)
        ensures
            s@ == long_call(sys::CURLOPT_SSLVERSION, version.code()),
            well_typed(s@),
    {
        setopt_long(sys::CURLOPT_SSLVERSION, version.raw())
    }

    /// Verify the certificate's name against host.
    ///
    /// This should be disabled with great caution! It basically disables the
    /// security features of SSL if it is disabled. Verification takes the
    /// value 2 (the name must match); no verification takes 0.
    ///
    /// By default this option is set to `true` and corresponds to
    /// `CURLOPT_SSL_VERIFYHOST`.
    pub fn ssl_verify_host(&self, verify: bool) -> (s: Setopt<'static>)
        ensures
            s@ == long_call(sys::CURLOPT_SSL_VERIFYHOST, if verify { 2 } else { 0 }),
            well_typed(s@),
    {
        let val: i64 = if verify {
            2
        } else {
            0
        };
        setopt_long(sys::CURLOPT_SSL_VERIFYHOST, val)
    }


    /// Verify the peer's SSL certificate.
    ///
    /// This should be disabled with great caution! It basically disables the
    /// security features of SSL if it is disabled.
    ///
    /// By default this option is set to `true` and corresponds to
    /// `CURLOPT_SSL_VERIFYPEER`.
    pub fn ssl_verify_peer(&self, verify: bool) -> (s: Setopt<'static>)
        ensures
            s@ == long_call(sys::CURLOPT_SSL_VERIFYPEER, flag(verify)),
            well_typed(s@),
    {
        setopt_long(sys::CURLOPT_SSL_VERIFYPEER, flag_value(verify))
    }

    /// Specify the path to Certificate Authority (CA) bundle
    ///
    /// The file referenced should hold one or more certificates to verify the
    /// peer with.
    ///
    /// This option is by default set to the system path where libcurl's cacert
    /// bundle is assumed to be stored, as established at build time.
    ///
    /// If curl is built against the NSS SSL library, the NSS PEM PKCS#11 module
    /// (libnsspem.so) needs to be available for this option to work properly.
    ///
    /// By default this option is the system defaults, and corresponds to
    /// `CURLOPT_CAINFO`.
    ///
    /// The path is given by the bytes that name it on the system.
    pub fn cainfo(&self, path: &[u8]) -> (r: Result<Setopt<'static>, Error>)
        ensures
            text_option(r, sys::CURLOPT_CAINFO, path@),
    {
        setopt_str(sys::CURLOPT_CAINFO, path)
    }

    /// Set the issuer SSL certificate filename
    ///
    /// Specifies a file holding a CA certificate in PEM format. If the option
    /// is set, an additional check against the peer certificate is performed to
    /// verify the issuer is indeed the one associated with the certificate
    /// provided by the option. This additional check is useful in multi-level
    /// PKI where one needs to enforce that the peer certificate is from a
    /// specific branch of the tree.
    ///
    /// This option makes sense only when used in combination with the
    /// `ssl_verify_peer` option. Otherwise, the result of the check is not
    /// considered as failure.
    ///
    /// By default this option is not set and corresponds to
    /// `CURLOPT_ISSUERCERT`.
    ///
    /// The path is given by the bytes that name it on the system.
    pub fn issuer_cert(&self, path: &[u8]) -> (r: Result<Setopt<'static>, Error>)
        ensures
            text_option(r, sys::CURLOPT_ISSUERCERT, path@),
    {
        setopt_str(sys::CURLOPT_ISSUERCERT, path)
    }

    /// Specify directory holding CA certificates
    ///
    /// Names a directory holding multiple CA certificates to verify the peer
    /// with. If libcurl is built against OpenSSL, the certificate directory
    /// must be prepared using the openssl c_rehash utility. This makes sense
    /// only when used in combination with the `ssl_verify_peer` option.
    ///
    /// By default this option is not set and corresponds to `CURLOPT_CAPATH`.
    ///
    /// The path is given by the bytes that name it on the system.
    pub fn capath(&self, path: &[u8]) -> (r: Result<Setopt<'static>, Error>)
        ensures
            text_option(r, sys::CURLOPT_CAPATH, path@),
    {
        setopt_str(sys::CURLOPT_CAPATH, path)
    }

    /// Specify a Certificate Revocation List file
    ///
    /// Names a file with the concatenation of CRL (in PEM format) to use in the
    /// certificate validation that occurs during the SSL exchange.
    ///
    /// When curl is built to use NSS or GnuTLS, there is no way to influence
    /// the use of CRL passed to help in the verification process. When libcurl
    /// is built with OpenSSL support, X509_V_FLAG_CRL_CHECK and
    /// X509_V_FLAG_CRL_CHECK_ALL are both set, requiring CRL check against all
    /// the elements of the certificate chain if a CRL file is passed.
    ///
    /// This option makes sense only when used in combination with the
    /// `ssl_verify_peer` option.
    ///
    /// A specific error code (`is_ssl_crl_badfile`) is defined with the
    /// option. It is returned when the SSL exchange fails because the CRL file
    /// cannot be loaded. A failure in certificate verification due to a
    /// revocation information found in the CRL does not trigger this specific
    /// error.
    ///
    /// By default this option is not set and corresponds to `CURLOPT_CRLFILE`.
    ///
    /// The path is given by the bytes that name it on the system.
    pub fn crlfile(&self, path: &[u8]) -> (r: Result<Setopt<'static>, Error>)
        ensures
            text_option(r, sys::CURLOPT_CRLFILE, path@),
    {
        setopt_str(sys::CURLOPT_CRLFILE, path)
    }

    /// Request SSL certificate information
    ///
    /// Enable libcurl's certificate chain info gatherer. With this enabled,
    /// libcurl will extract lots of information and data about the certificates
    /// in the certificate chain used in the SSL connection.
    ///
    /// By default this option is `false` and corresponds to
    /// `CURLOPT_CERTINFO`.
    pub fn certinfo(&self, enable: bool) -> (s: Setopt<'static>)
        ensures
            s@ == long_call(sys::CURLOPT_CERTINFO, flag(enable)),
            well_typed(s@),
    {
        setopt_long(sys::CURLOPT_CERTINFO, flag_value(enable))
    }

    /// Specify a source for random data
    ///
    /// The file will be used to read from to seed the random engine for SSL and
    /// more.
    ///
    /// By default this option is not set and corresponds to
    /// `CURLOPT_RANDOM_FILE`.
    ///
    /// The path is given by the bytes that name it on the system.
    pub fn random_file(&self, p: &[u8]) -> (r: Result<Setopt<'static>, Error>)
        ensures
            text_option(r, sys::CURLOPT_RANDOM_FILE, p@),
    {
        setopt_str(sys::CURLOPT_RANDOM_FILE, p)
    }

    /// Specify EGD socket path.
    ///
    /// Indicates the path name to the Entropy Gathering Daemon socket. It will
    /// be used to seed the random engine for SSL.
    ///
    /// By default this option is not set and corresponds to
    /// `CURLOPT_EGDSOCKET`.
    ///
    /// The path is given by the bytes that name it on the system.
    pub fn egd_socket(&self, p: &[u8]) -> (r: Result<Setopt<'static>, Error>)
        ensures
            text_option(r, sys::CURLOPT_EGDSOCKET, p@),
    {
        setopt_str(sys::CURLOPT_EGDSOCKET, p)
    }

    /// Specify ciphers to use for TLS.
    ///
    /// Holds the list of ciphers to use for the SSL connection. The list must
    /// be syntactically correct, it consists of one or more cipher strings
    /// separated by colons. Commas or spaces are also acceptable separators
    /// but colons are normally used, !, - and + can be used as operators.
    ///
    /// For OpenSSL and GnuTLS valid examples of cipher lists include 'RC4-SHA',
    /// ´SHA1+DES´, 'TLSv1' and 'DEFAULT'. The default list is normally set when
    /// you compile OpenSSL.
    ///
    /// You'll find more details about cipher lists on this URL:
    ///
    /// https://www.openssl.org/docs/apps/ciphers.html
    ///
    /// For NSS, valid examples of cipher lists include 'rsa_rc4_128_md5',
    /// ´rsa_aes_128_sha´, etc. With NSS you don't add/remove ciphers. If one
    /// uses this option then all known ciphers are disabled and only those
    /// passed in are enabled.
    ///
    /// You'll find more details about the NSS cipher lists on this URL:
    ///
    /// http://git.fedorahosted.org/cgit/mod_nss.git/plain/docs/mod_nss.html#Directives
    ///
    /// By default this option is not set and corresponds to
    /// `CURLOPT_SSL_CIPHER_LIST`.
    pub fn ssl_cipher_list(&self, ciphers: &str) -> (r: Result<Setopt<'static>, Error>)
        ensures
            text_option(r, sys::CURLOPT_SSL_CIPHER_LIST, ciphers.spec_bytes()),
    {
        setopt_str(sys::CURLOPT_SSL_CIPHER_LIST, ciphers.as_bytes())
    }

    /// Enable or disable use of the SSL session-ID cache
    ///
    /// By default all transfers are done using the cache enabled. While nothing
    /// ever should get hurt by attempting to reuse SSL session-IDs, there seem
    /// to be or have been broken SSL implementations in the wild that may
    /// require you to disable this in order for you to succeed.
    ///
    /// This corresponds to the `CURLOPT_SSL_SESSIONID_CACHE` option.
    pub fn ssl_sessionid_cache(&self, enable: bool) -> (s: Setopt<'static>)
        ensures
            s@ == long_call(sys::CURLOPT_SSL_SESSIONID_CACHE, flag(enable)),
            well_typed(s@),
    {
        setopt_long(sys::CURLOPT_SSL_SESSIONID_CACHE, flag_value(enable))
    }

    // =========================================================================
    // Configuration of new and reset handles

    /// The calls that point the handle at the system's trusted certificates.
    ///
    /// A path that cannot be a C string is skipped.
    pub fn ssl_configure(&self, certs: &CertLocations) -> (plan: Vec<Setopt<'static>>)
        ensures
            calls(plan@) == ssl_calls(*certs),
            all_well_typed(calls(plan@)),
    {
        let mut plan: Vec<Setopt<'static>> = Vec::new();
        match &certs.cert_file {
            Some(p) => match self.cainfo(p.as_slice()) {
                Ok(s) => plan.push(s),
                Err(_) => {},
            },
            None => {},
        }
        let ghost first = calls(plan@);
        assert(first =~= path_calls(sys::CURLOPT_CAINFO, bytes_of(certs.cert_file)));
        match &certs.cert_dir {
            Some(p) => match self.capath(p.as_slice()) {
                Ok(s) => plan.push(s),
                Err(_) => {},
            },
            None => {},
        }
        assert(calls(plan@) =~= ssl_calls(*certs));
        plan
    }

    /// The calls that configure a freshly created handle. libcurl's answers
    /// to them are not reported: the handle works without them.
    pub fn default_configure(&self, certs: &CertLocations) -> (plan: Vec<Setopt<'static>>)
        ensures
            calls(plan@) == default_calls(*certs),
            all_well_typed(calls(plan@)),
    {
        let mut plan: Vec<Setopt<'static>> = Vec::new();
        plan.push(self.signal(false));
        let mut rest = self.ssl_configure(certs);
        let ghost first = calls(plan@);
        let ghost second = calls(rest@);
        plan.append(&mut rest);
        assert(calls(plan@) =~= first + second);
        plan
    }

    /// Re-initializes this handle to the default values.
    ///
    /// After libcurl has reset the handle (`curl_easy_reset`), these calls
    /// put it in the same state as it was in when it was just created. This
    /// does, however, keep live connections, the session id cache, the dns
    /// cache, and cookies.
    pub fn reset(&self, certs: &CertLocations) -> (plan: Vec<Setopt<'static>>)
        ensures
            calls(plan@) == default_calls(*certs),
            all_well_typed(calls(plan@)),
    {
        self.default_configure(certs)
    }

    // =========================================================================
    // Information about the transfer

    /// Get the last used URL
    ///
    /// In cases when you've asked libcurl to follow redirects, it may
    /// not be the same value you set with `url`.
    ///
    /// This methods corresponds to the `CURLINFO_EFFECTIVE_URL` option.
    ///
    /// Returns `Ok(None)` if no effective url is listed or `Err` if an error
    /// happens or the underlying bytes aren't valid utf-8.
    ///
    /// `getinfo` makes libcurl's `curl_easy_getinfo` request for the item it
    /// is given, here `CURLINFO_EFFECTIVE_URL`, and returns libcurl's code with the
    /// value it gave (the bytes of the C string, `None` for a null pointer).
    pub fn effective_url<F: FnOnce(u32) -> (u32, Option<Vec<u8>>)>(&self, getinfo: F) -> (r: Result<Option<String>, Error>)
        requires
            getinfo.requires((sys::CURLINFO_EFFECTIVE_URL,)),
        ensures
            exists|a: (u32, Option<Vec<u8>>)| #[trigger] getinfo.ensures((sys::CURLINFO_EFFECTIVE_URL,), a) && text_answered(r, a.0, bytes_of(a.1)),
    {
        let a = getinfo(sys::CURLINFO_EFFECTIVE_URL);
        text_of(a.0, &a.1)
    }

    /// Get the last used URL, in bytes
    ///
    /// In cases when you've asked libcurl to follow redirects, it may
    /// not be the same value you set with `url`.
    ///
    /// This methods corresponds to the `CURLINFO_EFFECTIVE_URL` option.
    ///
    /// Returns `Ok(None)` if no effective url is listed or `Err` if an error
    /// happens or the underlying bytes aren't valid utf-8.
    ///
    /// `getinfo` makes libcurl's `curl_easy_getinfo` request for the item it
    /// is given, here `CURLINFO_EFFECTIVE_URL`, and returns libcurl's code with the
    /// value it gave (the bytes of the C string, `None` for a null pointer).
    pub fn effective_url_bytes<F: FnOnce(u32) -> (u32, Option<Vec<u8>>)>(&self, getinfo: F) -> (r: Result<Option<Vec<u8>>, Error>)
        requires
            getinfo.requires((sys::CURLINFO_EFFECTIVE_URL,)),
        ensures
            exists|a: (u32, Option<Vec<u8>>)| #[trigger] getinfo.ensures((sys::CURLINFO_EFFECTIVE_URL,), a) && utf8_bytes_answered(r, a.0, bytes_of(a.1)),
    {
        let a = getinfo(sys::CURLINFO_EFFECTIVE_URL);
        utf8_bytes_of(a.0, &a.1)
    }

    /// Get the last response code
    ///
    /// The stored value will be zero if no server response code has been
    /// received. Note that a proxy's CONNECT response should be read with
    /// `http_connectcode` and not this.
    ///
    /// Corresponds to `CURLINFO_RESPONSE_CODE` and returns an error if this
    /// option is not supported.
    ///
    /// `getinfo` makes libcurl's `curl_easy_getinfo` request for the item it
    /// is given, here `CURLINFO_RESPONSE_CODE`, and returns libcurl's code with the
    /// value it gave (a C `long`).
    pub fn response_code<F: FnOnce(u32) -> (u32, i64)>(&self, getinfo: F) -> (r: Result<u32, Error>)
        requires
            getinfo.requires((sys::CURLINFO_RESPONSE_CODE,)),
        ensures
            exists|a: (u32, i64)| #[trigger] getinfo.ensures((sys::CURLINFO_RESPONSE_CODE,), a) && answered(r, a.0, a.1 as u32),
    {
        let a = getinfo(sys::CURLINFO_RESPONSE_CODE);
        let v = long_of(a.0, a.1)?;
        Ok(v as u32)
    }

    /// Get the CONNECT response code
    ///
    /// Returns the last received HTTP proxy response code to a CONNECT request.
    /// The returned value will be zero if no such response code was available.
    ///
    /// Corresponds to `CURLINFO_HTTP_CONNECTCODE` and returns an error if this
    /// option is not supported.
    ///
    /// `getinfo` makes libcurl's `curl_easy_getinfo` request for the item it
    /// is given, here `CURLINFO_HTTP_CONNECTCODE`, and returns libcurl's code with the
    /// value it gave (a C `long`).
    pub fn http_connectcode<F: FnOnce(u32) -> (u32, i64)>(&self, getinfo: F) -> (r: Result<u32, Error>)
        requires
            getinfo.requires((sys::CURLINFO_HTTP_CONNECTCODE,)),
        ensures
            exists|a: (u32, i64)| #[trigger] getinfo.ensures((sys::CURLINFO_HTTP_CONNECTCODE,), a) && answered(r, a.0, a.1 as u32),
    {
        let a = getinfo(sys::CURLINFO_HTTP_CONNECTCODE);
        let v = long_of(a.0, a.1)?;
        Ok(v as u32)
    }

    /// Get the remote time of the retrieved document
    ///
    /// Returns the remote time of the retrieved document (in number of seconds
    /// since 1 Jan 1970 in the GMT/UTC time zone). If you get `None`, it can be
    /// because of many reasons (it might be unknown, the server might hide it
    /// or the server doesn't support the command that tells document time etc)
    /// and the time of the document is unknown.
    ///
    /// Note that you must tell the server to collect this information before
    /// the transfer is made, by using the `filetime` method to
    /// or you will unconditionally get a `None` back.
    ///
    /// This corresponds to `CURLINFO_FILETIME` and may return an error if the
    /// option is not supported
    ///
    /// `getinfo` makes libcurl's `curl_easy_getinfo` request for the item it
    /// is given, here `CURLINFO_FILETIME`, and returns libcurl's code with the
    /// value it gave (a C `long`).
    pub fn filetime<F: FnOnce(u32) -> (u32, i64)>(&self, getinfo: F) -> (r: Result<Option<i64>, Error>)
        requires
            getinfo.requires((sys::CURLINFO_FILETIME,)),
        ensures
            exists|a: (u32, i64)| #[trigger] getinfo.ensures((sys::CURLINFO_FILETIME,), a) && answered(r, a.0, if a.1 == -1 { None } else { Some(a.1) }),
    {
        let a = getinfo(sys::CURLINFO_FILETIME);
        let v = long_of(a.0, a.1)?;
        if v == -1 {
            Ok(None)
        } else {
            Ok(Some(v))
        }
    }

    /// Get the number of redirects
    ///
    /// Corresponds to `CURLINFO_REDIRECT_COUNT` and may return an error if the
    /// option isn't supported.
    ///
    /// `getinfo` makes libcurl's `curl_easy_getinfo` request for the item it
    /// is given, here `CURLINFO_REDIRECT_COUNT`, and returns libcurl's code with the
    /// value it gave (a C `long`).
    pub fn redirect_count<F: FnOnce(u32) -> (u32, i64)>(&self, getinfo: F) -> (r: Result<u32, Error>)
        requires
            getinfo.requires((sys::CURLINFO_REDIRECT_COUNT,)),
        ensures
            exists|a: (u32, i64)| #[trigger] getinfo.ensures((sys::CURLINFO_REDIRECT_COUNT,), a) && answered(r, a.0, a.1 as u32),
    {
        let a = getinfo(sys::CURLINFO_REDIRECT_COUNT);
        let v = long_of(a.0, a.1)?;
        Ok(v as u32)
    }

    /// Get the URL a redirect would go to
    ///
    /// Returns the URL a redirect would take you to if you would enable
    /// `follow_location`. This can come very handy if you think using the
    /// built-in libcurl redirect logic isn't good enough for you but you would
    /// still prefer to avoid implementing all the magic of figuring out the new
    /// URL.
    ///
    /// Corresponds to `CURLINFO_REDIRECT_URL` and may return an error if the
    /// url isn't valid utf-8 or an error happens.
    ///
    /// `getinfo` makes libcurl's `curl_easy_getinfo` request for the item it
    /// is given, here `CURLINFO_REDIRECT_URL`, and returns libcurl's code with the
    /// value it gave (the bytes of the C string, `None` for a null pointer).
    pub fn redirect_url<F: FnOnce(u32) -> (u32, Option<Vec<u8>>)>(&self, getinfo: F) -> (r: Result<Option<String>, Error>)
        requires
            getinfo.requires((sys::CURLINFO_REDIRECT_URL,)),
        ensures
            exists|a: (u32, Option<Vec<u8>>)| #[trigger] getinfo.ensures((sys::CURLINFO_REDIRECT_URL,), a) && text_answered(r, a.0, bytes_of(a.1)),
    {
        let a = getinfo(sys::CURLINFO_REDIRECT_URL);
        text_of(a.0, &a.1)
    }

    /// Get the URL a redirect would go to, in bytes
    ///
    /// Returns the URL a redirect would take you to if you would enable
    /// `follow_location`. This can come very handy if you think using the
    /// built-in libcurl redirect logic isn't good enough for you but you would
    /// still prefer to avoid implementing all the magic of figuring out the new
    /// URL.
    ///
    /// Corresponds to `CURLINFO_REDIRECT_URL` and may return an error.
    ///
    /// `getinfo` makes libcurl's `curl_easy_getinfo` request for the item it
    /// is given, here `CURLINFO_REDIRECT_URL`, and returns libcurl's code with the
    /// value it gave (the bytes of the C string, `None` for a null pointer).
    pub fn redirect_url_bytes<F: FnOnce(u32) -> (u32, Option<Vec<u8>>)>(&self, getinfo: F) -> (r: Result<Option<Vec<u8>>, Error>)
        requires
            getinfo.requires((sys::CURLINFO_REDIRECT_URL,)),
        ensures
            exists|a: (u32, Option<Vec<u8>>)| #[trigger] getinfo.ensures((sys::CURLINFO_REDIRECT_URL,), a) && bytes_answered(r, a.0, bytes_of(a.1)),
    {
        let a = getinfo(sys::CURLINFO_REDIRECT_URL);
        bytes_of_answer(a.0, &a.1)
    }

    /// Get size of retrieved headers
    ///
    /// Corresponds to `CURLINFO_HEADER_SIZE` and may return an error if the
    /// option isn't supported.
    ///
    /// `getinfo` makes libcurl's `curl_easy_getinfo` request for the item it
    /// is given, here `CURLINFO_HEADER_SIZE`, and returns libcurl's code with the
    /// value it gave (a C `long`).
    pub fn header_size<F: FnOnce(u32) -> (u32, i64)>(&self, getinfo: F) -> (r: Result<u64, Error>)
        requires
            getinfo.requires((sys::CURLINFO_HEADER_SIZE,)),
        ensures
            exists|a: (u32, i64)| #[trigger] getinfo.ensures((sys::CURLINFO_HEADER_SIZE,), a) && answered(r, a.0, a.1 as u64),
    {
        let a = getinfo(sys::CURLINFO_HEADER_SIZE);
        let v = long_of(a.0, a.1)?;
        Ok(v as u64)
    }

    /// Get size of sent request.
    ///
    /// Corresponds to `CURLINFO_REQUEST_SIZE` and may return an error if the
    /// option isn't supported.
    ///
    /// `getinfo` makes libcurl's `curl_easy_getinfo` request for the item it
    /// is given, here `CURLINFO_REQUEST_SIZE`, and returns libcurl's code with the
    /// value it gave (a C `long`).
    pub fn request_size<F: FnOnce(u32) -> (u32, i64)>(&self, getinfo: F) -> (r: Result<u64, Error>)
        requires
            getinfo.requires((sys::CURLINFO_REQUEST_SIZE,)),
        ensures
            exists|a: (u32, i64)| #[trigger] getinfo.ensures((sys::CURLINFO_REQUEST_SIZE,), a) && answered(r, a.0, a.1 as u64),
    {
        let a = getinfo(sys::CURLINFO_REQUEST_SIZE);
        let v = long_of(a.0, a.1)?;
        Ok(v as u64)
    }

    /// Get Content-Type
    ///
    /// Returns the content-type of the downloaded object. This is the value
    /// read from the Content-Type: field.  If you get `None`, it means that the
    /// server didn't send a valid Content-Type header or that the protocol
    /// used doesn't support this.
    ///
    /// Corresponds to `CURLINFO_CONTENT_TYPE` and may return an error if the
    /// option isn't supported.
    ///
    /// `getinfo` makes libcurl's `curl_easy_getinfo` request for the item it
    /// is given, here `CURLINFO_CONTENT_TYPE`, and returns libcurl's code with the
    /// value it gave (the bytes of the C string, `None` for a null pointer).
    pub fn content_type<F: FnOnce(u32) -> (u32, Option<Vec<u8>>)>(&self, getinfo: F) -> (r: Result<Option<String>, Error>)
        requires
            getinfo.requires((sys::CURLINFO_CONTENT_TYPE,)),
        ensures
            exists|a: (u32, Option<Vec<u8>>)| #[trigger] getinfo.ensures((sys::CURLINFO_CONTENT_TYPE,), a) && text_answered(r, a.0, bytes_of(a.1)),
    {
        let a = getinfo(sys::CURLINFO_CONTENT_TYPE);
        text_of(a.0, &a.1)
    }

    /// Get Content-Type, in bytes
    ///
    /// Returns the content-type of the downloaded object. This is the value
    /// read from the Content-Type: field.  If you get `None`, it means that the
    /// server didn't send a valid Content-Type header or that the protocol
    /// used doesn't support this.
    ///
    /// Corresponds to `CURLINFO_CONTENT_TYPE` and may return an error if the
    /// option isn't supported.
    ///
    /// `getinfo` makes libcurl's `curl_easy_getinfo` request for the item it
    /// is given, here `CURLINFO_CONTENT_TYPE`, and returns libcurl's code with the
    /// value it gave (the bytes of the C string, `None` for a null pointer).
    pub fn content_type_bytes<F: FnOnce(u32) -> (u32, Option<Vec<u8>>)>(&self, getinfo: F) -> (r: Result<Option<Vec<u8>>, Error>)
        requires
            getinfo.requires((sys::CURLINFO_CONTENT_TYPE,)),
        ensures
            exists|a: (u32, Option<Vec<u8>>)| #[trigger] getinfo.ensures((sys::CURLINFO_CONTENT_TYPE,), a) && bytes_answered(r, a.0, bytes_of(a.1)),
    {
        let a = getinfo(sys::CURLINFO_CONTENT_TYPE);
        bytes_of_answer(a.0, &a.1)
    }

    /// Get errno number from last connect failure.
    ///
    /// Note that the value is only set on failure, it is not reset upon a
    /// successful operation. The number is OS and system specific.
    ///
    /// Corresponds to `CURLINFO_OS_ERRNO` and may return an error if the
    /// option isn't supported.
    ///
    /// `getinfo` makes libcurl's `curl_easy_getinfo` request for the item it
    /// is given, here `CURLINFO_OS_ERRNO`, and returns libcurl's code with the
    /// value it gave (a C `long`).
    pub fn os_errno<F: FnOnce(u32) -> (u32, i64)>(&self, getinfo: F) -> (r: Result<i32, Error>)
        requires
            getinfo.requires((sys::CURLINFO_OS_ERRNO,)),
        ensures
            exists|a: (u32, i64)| #[trigger] getinfo.ensures((sys::CURLINFO_OS_ERRNO,), a) && answered(r, a.0, a.1 as i32),
    {
        let a = getinfo(sys::CURLINFO_OS_ERRNO);
        let v = long_of(a.0, a.1)?;
        Ok(v as i32)
    }

    /// Get IP address of last connection.
    ///
    /// Returns a string holding the IP address of the most recent connection
    /// done with this curl handle. This string may be IPv6 when that is
    /// enabled.
    ///
    /// Corresponds to `CURLINFO_PRIMARY_IP` and may return an error if the
    /// option isn't supported.
    ///
    /// `getinfo` makes libcurl's `curl_easy_getinfo` request for the item it
    /// is given, here `CURLINFO_PRIMARY_IP`, and returns libcurl's code with the
    /// value it gave (the bytes of the C string, `None` for a null pointer).
    pub fn primary_ip<F: FnOnce(u32) -> (u32, Option<Vec<u8>>)>(&self, getinfo: F) -> (r: Result<Option<String>, Error>)
        requires
            getinfo.requires((sys::CURLINFO_PRIMARY_IP,)),
        ensures
            exists|a: (u32, Option<Vec<u8>>)| #[trigger] getinfo.ensures((sys::CURLINFO_PRIMARY_IP,), a) && text_answered(r, a.0, bytes_of(a.1)),
    {
        let a = getinfo(sys::CURLINFO_PRIMARY_IP);
        text_of(a.0, &a.1)
    }

    /// Get the latest destination port number
    ///
    /// Corresponds to `CURLINFO_PRIMARY_PORT` and may return an error if the
    /// option isn't supported.
    ///
    /// `getinfo` makes libcurl's `curl_easy_getinfo` request for the item it
    /// is given, here `CURLINFO_PRIMARY_PORT`, and returns libcurl's code with the
    /// value it gave (a C `long`).
    pub fn primary_port<F: FnOnce(u32) -> (u32, i64)>(&self, getinfo: F) -> (r: Result<u16, Error>)
        requires
            getinfo.requires((sys::CURLINFO_PRIMARY_PORT,)),
        ensures
            exists|a: (u32, i64)| #[trigger] getinfo.ensures((sys::CURLINFO_PRIMARY_PORT,), a) && answered(r, a.0, a.1 as u16),
    {
        let a = getinfo(sys::CURLINFO_PRIMARY_PORT);
        let v = long_of(a.0, a.1)?;
        Ok(v as u16)
    }

    /// Get local IP address of last connection
    ///
    /// Returns a string holding the IP address of the local end of most recent
    /// connection done with this curl handle. This string may be IPv6 when that
    /// is enabled.
    ///
    /// Corresponds to `CURLINFO_LOCAL_IP` and may return an error if the
    /// option isn't supported.
    ///
    /// `getinfo` makes libcurl's `curl_easy_getinfo` request for the item it
    /// is given, here `CURLINFO_LOCAL_IP`, and returns libcurl's code with the
    /// value it gave (the bytes of the C string, `None` for a null pointer).
    pub fn local_ip<F: FnOnce(u32) -> (u32, Option<Vec<u8>>)>(&self, getinfo: F) -> (r: Result<Option<String>, Error>)
        requires
            getinfo.requires((sys::CURLINFO_LOCAL_IP,)),
        ensures
            exists|a: (u32, Option<Vec<u8>>)| #[trigger] getinfo.ensures((sys::CURLINFO_LOCAL_IP,), a) && text_answered(r, a.0, bytes_of(a.1)),
    {
        let a = getinfo(sys::CURLINFO_LOCAL_IP);
        text_of(a.0, &a.1)
    }

    /// Get the latest local port number
    ///
    /// Corresponds to `CURLINFO_LOCAL_PORT` and may return an error if the
    /// option isn't supported.
    ///
    /// `getinfo` makes libcurl's `curl_easy_getinfo` request for the item it
    /// is given, here `CURLINFO_LOCAL_PORT`, and returns libcurl's code with the
    /// value it gave (a C `long`).
    pub fn local_port<F: FnOnce(u32) -> (u32, i64)>(&self, getinfo: F) -> (r: Result<u16, Error>)
        requires
            getinfo.requires((sys::CURLINFO_LOCAL_PORT,)),
        ensures
            exists|a: (u32, i64)| #[trigger] getinfo.ensures((sys::CURLINFO_LOCAL_PORT,), a) && answered(r, a.0, a.1 as u16),
    {
        let a = getinfo(sys::CURLINFO_LOCAL_PORT);
        let v = long_of(a.0, a.1)?;
        Ok(v as u16)
    }

    /// Get all known cookies
    ///
    /// Returns a linked-list of all cookies cURL knows (expired ones, too).
    ///
    /// Corresponds to the `CURLINFO_COOKIELIST` option and may return an error
    /// if the option isn't supported.
    ///
    /// `getinfo` makes libcurl's `curl_easy_getinfo` request for the item it
    /// is given, here `CURLINFO_COOKIELIST`, and returns libcurl's code with
    /// the C strings of the list it gave.
    pub fn cookies<F: FnOnce(u32) -> (u32, Vec<Vec<u8>>)>(&self, getinfo: F) -> (r: Result<List, Error>)
        requires
            getinfo.requires((sys::CURLINFO_COOKIELIST,)),
            forall|a: (u32, Vec<Vec<u8>>)|
                #[trigger] getinfo.ensures((sys::CURLINFO_COOKIELIST,), a) ==> all_c_strings(
                    a.1@.map_values(|e: Vec<u8>| e@),
                ),
        ensures
            exists|a: (u32, Vec<Vec<u8>>)|
                #[trigger] getinfo.ensures((sys::CURLINFO_COOKIELIST,), a) && (if a.0 == sys::CURLE_OK {
                    r matches Ok(l) && l@ == a.1@.map_values(|e: Vec<u8>| e@)
                } else {
                    r matches Err(e) && e@ == a.0
                }),
    {
        let a = getinfo(sys::CURLINFO_COOKIELIST);
        let (code, entries) = a;
        cvt(code)?;
        Ok(List::from_entries(entries))
    }

    // =========================================================================
    // Other methods

    /// What the transfer reports, from libcurl's answer `code` to
    /// `curl_easy_perform`: success exactly for `CURLE_OK`.
    ///
    /// A transfer can be performed many times on one handle, and libcurl
    /// will attempt to re-use the same connection for all transfers. It
    /// preserves all options configured in the handle for the next request.
    pub fn perform(&self, code: u32) -> (r: Result<(), Error>)
        ensures
            r is Ok <==> code == sys::CURLE_OK,
            r matches Err(e) ==> e@ == code,
    {
        cvt(code)
    }

    /// URL encodes a string `s`: the empty string encodes to the empty
    /// string (`Some`); any other needs libcurl's `curl_easy_escape`
    /// (`None`), whose output [`Easy::url_encoded`] turns into the result.
    pub fn url_encode(&self, s: &[u8]) -> (r: Option<String>)
        ensures
            r is Some <==> s@.len() == 0,
            r matches Some(t) ==> t@ == Seq::<char>::empty(),
    {
        if s.len() == 0 {
            Some(String::new())
        } else {
            None
        }
    }

    /// The text of what `curl_easy_escape` produced, if it is valid UTF-8.
    pub fn url_encoded(&self, escaped: &[u8]) -> (r: Option<String>)
        ensures
            r is Some <==> valid_utf8(escaped@),
            r matches Some(t) ==> t@ == decode_utf8(escaped@),
    {
        match from_utf8(escaped) {
            Some(t) => Some(t.to_owned()),
            None => None,
        }
    }

    /// URL decodes a string `s`, returning `None` if it fails: the empty
    /// string decodes to no bytes without asking libcurl
    /// ([`Decode::Done`]); any other needs libcurl's `curl_easy_unescape` on
    /// the request ([`Decode::Ask`]), whose answer [`Easy::url_decoded`]
    /// turns into the result.
    ///
    /// When one of the last three characters is `%`, a NUL byte follows the
    /// text in the buffer, so that libcurl never reads past its end while it
    /// decodes an escape sequence; the length to decode stays that of the
    /// text.
    pub fn url_decode(&self, s: &str) -> (r: Decode)
        ensures
            r is Done <==> s@.len() == 0,
            r matches Decode::Done(v) ==> v@ == Seq::<u8>::empty(),
            r matches Decode::Ask(q) ==> q.len == s.spec_bytes().len() && q.buffer@ == (
            if ends_in_escape(s@) {
                s.spec_bytes().push(0u8)
            } else {
                s.spec_bytes()
            }),
    {
        if s.is_empty() {
            return Decode::Done(Vec::new());
        }
        let n = s.unicode_len();
        let escape = (n >= 1 && s.get_char(n - 1) == '%') || (n >= 2 && s.get_char(n - 2) == '%')
            || (n >= 3 && s.get_char(n - 3) == '%');
        let bytes = s.as_bytes();
        let mut buffer = vstd::slice::slice_to_vec(bytes);
        if escape {
            buffer.push(0u8);
        }
        proof {
            if ends_in_escape(s@) {
                let i = choose|i: int| 0 <= i < s@.len() && s@.len() - 3 <= i && s@[i] == '%';
                assert(i == n - 1 || i == n - 2 || i == n - 3);
            }
            if escape {
                if n >= 1 && s@[n - 1] == '%' {
                    assert(ends_in_escape(s@));
                } else if n >= 2 && s@[n - 2] == '%' {
                    assert(ends_in_escape(s@));
                } else {
                    assert(s@[n - 3] == '%');
                    assert(ends_in_escape(s@));
                }
            }
            assert(escape == ends_in_escape(s@));
            assert(bytes@ == s.spec_bytes());
        }
        Decode::Ask(DecodeRequest { buffer, len: bytes.len() })
    }

    /// The result of URL decoding, from what `curl_easy_unescape` gave: the
    /// decoded bytes, or `None` when libcurl could not decode the text (it
    /// gave a null pointer).
    pub fn url_decoded(&self, decoded: Option<&[u8]>) -> (r: Option<Vec<u8>>)
        ensures
            r is Some <==> decoded is Some,
            r matches Some(v) ==> decoded matches Some(d) && v@ == d@,
    {
        match decoded {
            Some(d) => Some(vstd::slice::slice_to_vec(d)),
            None => None,
        }
    }

    /// Receiving data from a connected socket: what libcurl's answer `code`
    /// to `curl_easy_recv`, which received `n` bytes, reports.
    ///
    /// Only useful after a successful `perform` with the `connect_only`
    /// option set as well.
    pub fn recv(&self, code: u32, n: usize) -> (r: Result<usize, Error>)
        ensures
            answered(r, code, n),
            r is Ok <==> code == sys::CURLE_OK,
            r matches Ok(m) ==> m == n,
            r matches Err(e) ==> e@ == code,
    {
        if code == sys::CURLE_OK {
            Ok(n)
        } else {
            Err(Error::new(code))
        }
    }

    /// Sending data over the connected socket: what libcurl's answer `code`
    /// to `curl_easy_send`, which sent `n` bytes, reports.
    ///
    /// Only useful after a successful `perform` with the `connect_only`
    /// option set as well.
    pub fn send(&self, code: u32, n: usize) -> (r: Result<usize, Error>)
        ensures
            answered(r, code, n),
            r is Ok <==> code == sys::CURLE_OK,
            r matches Ok(m) ==> m == n,
            r matches Err(e) ==> e@ == code,
    {
        cvt(code)?;
        Ok(n)
    }
}

// =============================================================================
// Default configuration

/// Where the system keeps the certificates of trusted authorities, as a
/// probe of the system finds them: a bundle file and a directory. Each is
/// given by the bytes that name it on the system.
#[derive(Debug, PartialEq, Eq)]
pub struct CertLocations {
    pub cert_file: Option<Vec<u8>>,
    pub cert_dir: Option<Vec<u8>>,
}

/// The bytes of an optional buffer.
pub open spec fn bytes_of(b: Option<Vec<u8>>) -> Option<Seq<u8>> {
    match b {
        Some(v) => Some(v@),
        None => None,
    }
}

/// The calls that point `option` at an optional path: none when there is
/// no path, or when the path cannot be a C string (the handle ignores that
/// path).
pub open spec fn path_calls(option: u32, path: Option<Seq<u8>>) -> Seq<Call> {
    match path {
        Some(p) => if has_nul(p) {
            seq![]
        } else {
            seq![Call { option, arg: Arg::Str(p) }]
        },
        None => seq![],
    }
}

/// The calls that point a handle at the system's trusted certificates.
pub open spec fn ssl_calls(certs: CertLocations) -> Seq<Call> {
    path_calls(sys::CURLOPT_CAINFO, bytes_of(certs.cert_file)) + path_calls(
        sys::CURLOPT_CAPATH,
        bytes_of(certs.cert_dir),
    )
}

/// The calls that configure a fresh handle: signals are not used (the
/// handle is thread safe by default), then the system's certificates are
/// trusted.
pub open spec fn default_calls(certs: CertLocations) -> Seq<Call> {
    seq![long_call(sys::CURLOPT_NOSIGNAL, 1)] + ssl_calls(certs)
}

// =============================================================================
// Answers of libcurl

/// True when `r` is what an information request reports when libcurl
/// answered `code` and, on success, the value `v`.
pub open spec fn answered<T>(r: Result<T, Error>, code: u32, v: T) -> bool {
    if code == sys::CURLE_OK {
        r == Ok::<T, Error>(v)
    } else {
        r matches Err(e) && e@ == code
    }
}

/// True when `r` is what a request for bytes reports when libcurl answered
/// `code` and, on success, the optional C string `value`.
pub open spec fn bytes_answered(
    r: Result<Option<Vec<u8>>, Error>,
    code: u32,
    value: Option<Seq<u8>>,
) -> bool {
    if code == sys::CURLE_OK {
        r matches Ok(o) && bytes_of(o) == value
    } else {
        r matches Err(e) && e@ == code
    }
}

/// True when `r` is what a request for text reports when libcurl answered
/// `code` and, on success, the optional C string `value`: no text for a null
/// pointer, the text that the bytes encode when they are valid UTF-8, and
/// `CURLE_CONV_FAILED` when they are not.
pub open spec fn text_answered(r: Result<Option<String>, Error>, code: u32, value: Option<Seq<u8>>) -> bool {
    if code != sys::CURLE_OK {
        r matches Err(e) && e@ == code
    } else {
        match value {
            None => r matches Ok(o) && o is None,
            Some(b) => if valid_utf8(b) {
                r matches Ok(o) && o matches Some(t) && t@ == decode_utf8(b)
            } else {
                r matches Err(e) && e@ == sys::CURLE_CONV_FAILED
            },
        }
    }
}

/// True when `r` is what a request for bytes that must be text reports when
/// libcurl answered `code` and, on success, the optional C string `value`:
/// no bytes for a null pointer, the bytes when they are valid UTF-8, and
/// `CURLE_CONV_FAILED` when they are not.
pub open spec fn utf8_bytes_answered(
    r: Result<Option<Vec<u8>>, Error>,
    code: u32,
    value: Option<Seq<u8>>,
) -> bool {
    if code != sys::CURLE_OK {
        r matches Err(e) && e@ == code
    } else {
        match value {
            None => r matches Ok(o) && o is None,
            Some(b) => if valid_utf8(b) {
                r matches Ok(o) && bytes_of(o) == Some(b)
            } else {
                r matches Err(e) && e@ == sys::CURLE_CONV_FAILED
            },
        }
    }
}

/// `std::str::from_utf8`. Its documentation says that it accepts exactly
/// the byte strings that are valid UTF-8, and that the text it then gives
/// back is the text those bytes encode.
#[verifier::external_body]
fn from_utf8(bytes: &[u8]) -> (r: Option<&str>)
    ensures
        r is Some <==> valid_utf8(bytes@),
        r matches Some(t) ==> t@ == decode_utf8(bytes@),
{
    std::str::from_utf8(bytes).ok()
}

fn text_of(code: u32, value: &Option<Vec<u8>>) -> (r: Result<Option<String>, Error>)
    ensures
        text_answered(r, code, bytes_of(*value)),
{
    cvt(code)?;
    match value {
        None => Ok(None),
        Some(b) => match from_utf8(b.as_slice()) {
            Some(t) => Ok(Some(t.to_owned())),
            None => Err(Error::conv_failed()),
        },
    }
}

fn bytes_of_answer(code: u32, value: &Option<Vec<u8>>) -> (r: Result<Option<Vec<u8>>, Error>)
    ensures
        bytes_answered(r, code, bytes_of(*value)),
{
    cvt(code)?;
    match value {
        None => Ok(None),
        Some(b) => Ok(Some(vstd::slice::slice_to_vec(b.as_slice()))),
    }
}

fn utf8_bytes_of(code: u32, value: &Option<Vec<u8>>) -> (r: Result<Option<Vec<u8>>, Error>)
    ensures
        utf8_bytes_answered(r, code, bytes_of(*value)),
{
    cvt(code)?;
    match value {
        None => Ok(None),
        Some(b) => match from_utf8(b.as_slice()) {
            Some(_) => Ok(Some(vstd::slice::slice_to_vec(b.as_slice()))),
            None => Err(Error::conv_failed()),
        },
    }
}

fn long_of(code: u32, value: i64) -> (r: Result<i64, Error>)
    ensures
        answered(r, code, value),
{
    cvt(code)?;
    Ok(value)
}

/// The input that libcurl's `curl_easy_unescape` gets for a non-empty text:
/// the buffer to read and the length to decode.
#[derive(Debug, PartialEq, Eq)]
pub struct DecodeRequest {
    pub buffer: Vec<u8>,
    pub len: usize,
}

/// How URL decoding of a text proceeds.
#[derive(Debug, PartialEq, Eq)]
pub enum Decode {
    /// The result is known without libcurl: these bytes.
    Done(Vec<u8>),
    /// libcurl must decode this request.
    Ask(DecodeRequest),
}

/// True when one of the last three characters of `chars` is `%`, so that
/// an escape sequence may start there and run past the end.
pub open spec fn ends_in_escape(chars: Seq<char>) -> bool {
    exists|i: int| 0 <= i < chars.len() && chars.len() - 3 <= i && chars[i] == '%'
}

// =============================================================================
// Callbacks

/// What the entry point of the write or read callback returns to libcurl:
/// the number of bytes that the closure handled, or, when the closure
/// panicked (`None`), `usize::MAX`, which no transfer can match, so that
/// libcurl aborts.
pub fn transfer_callback_result(handled: Option<usize>) -> (r: usize)
    ensures
        r == (match handled {
            Some(n) => n,
            None => usize::MAX,
        }),
{
    match handled {
        Some(n) => n,
        None => usize::MAX,
    }
}

/// The position that libcurl's seek request asks for: an absolute position
/// when `origin` is `SEEK_SET`. libcurl asks for no other origin; for any
/// other the callback fails.
pub fn seek_target(origin: i32, offset: i64) -> (r: Option<u64>)
    ensures
        r == (if origin == sys::SEEK_SET {
            Some(offset as u64)
        } else {
            None
        }),
{
    if origin == sys::SEEK_SET {
        Some(offset as u64)
    } else {
        None
    }
}

/// What the entry point of the seek callback returns to libcurl: the code
/// of the closure's result, or -1 when the callback failed (`None`).
pub fn seek_callback_result(outcome: Option<SeekResult>) -> (r: i32)
    ensures
        r == (match outcome {
            Some(s) => s.code(),
            None => -1i32,
        }),
{
    match outcome {
        Some(s) => s.raw(),
        None => -1,
    }
}

/// What the entry point of the progress callback returns to libcurl: 0 to
/// go on when the closure said so, 1 to abort when it returned `false` or
/// panicked (`None`).
pub fn progress_callback_result(keep_going: Option<bool>) -> (r: i32)
    ensures
        r == (if keep_going == Some(true) {
            0i32
        } else {
            1i32
        }),
{
    match keep_going {
        Some(true) => 0,
        _ => 1,
    }
}

/// What the entry point of the header callback returns to libcurl for a
/// header of `size * nitems` bytes: that length when the closure accepted
/// the header, `usize::MAX` (an error) when it returned `false` or panicked
/// (`None`).
pub fn header_callback_result(keep_going: Option<bool>, size: usize, nitems: usize) -> (r: usize)
    requires
        keep_going == Some(true) ==> size * nitems <= usize::MAX,
    ensures
        r == (if keep_going == Some(true) {
            (size * nitems) as usize
        } else {
            usize::MAX
        }),
{
    match keep_going {
        Some(true) => size * nitems,
        _ => usize::MAX,
    }
}

/// What the entry point of the debug callback does with libcurl's
/// `curl_infotype` value `kind`: the kind of data to hand to the closure
/// (none for a kind the callback does not report, which is then ignored),
/// and its answer to libcurl, always 0 so that the transfer goes on.
pub fn debug_callback_result(kind: u32) -> (r: (Option<InfoType>, i32))
    ensures
        r.0 == InfoType::of_code(kind),
        r.1 == 0,
{
    (InfoType::from_raw(kind), 0)
}

// =============================================================================
// Making the calls of a plan

/// What to do next while the calls of a plan are made.
#[derive(Debug, PartialEq, Eq)]
pub enum Step {
    /// Make the call of the plan at this index.
    Make(usize),
    /// Stop, and report this result.
    Finish(Result<(), Error>),
}

/// True when libcurl accepted each of the first `n` answers.
pub open spec fn accepted_up_to(answers: Seq<u32>, n: int) -> bool {
    forall|i: int| 0 <= i < n ==> answers[i] == sys::CURLE_OK
}

/// The next step of a plan of `plan_len` calls, of which libcurl has
/// answered the first ones with `answers`: the calls are made in order; the
/// first that libcurl refuses ends the plan with its code as the error; when
/// every call was accepted, the plan succeeds.
pub fn next_step(answers: &[u32], plan_len: usize) -> (r: Step)
    ensures
        r matches Step::Make(i) <==> accepted_up_to(answers@, answers@.len() as int)
            && answers@.len() < plan_len,
        r matches Step::Make(i) ==> i == answers@.len(),
        r == Step::Finish(Ok(())) <==> accepted_up_to(answers@, answers@.len() as int)
            && answers@.len() >= plan_len,
        r matches Step::Finish(Err(e)) <==> (exists|j: int|
            0 <= j < answers@.len() && answers@[j] != sys::CURLE_OK),
        r matches Step::Finish(Err(e)) ==> (exists|j: int|
            0 <= j < answers@.len() && answers@[j] != sys::CURLE_OK && accepted_up_to(answers@, j)
                && e@ == answers@[j]),
{
    let mut i: usize = 0;
    while i < answers.len()
        invariant
            i <= answers@.len(),
            accepted_up_to(answers@, i as int),
        decreases answers@.len() - i,
    {
        if answers[i] != sys::CURLE_OK {
            return Step::Finish(Err(Error::new(answers[i])));
        }
        i = i + 1;
    }
    if answers.len() < plan_len {
        Step::Make(answers.len())
    } else {
        Step::Finish(Ok(()))
    }
}


// =============================================================================
// Laws

/// Whatever the system's certificate locations, the calls that configure a
/// new (or reset) handle hand libcurl arguments of the right C types: the
/// first turns signals off, and the only others point libcurl at the
/// certificate bundle and directory, as C strings.
pub proof fn default_configuration_is_well_typed(certs: CertLocations)
    ensures
        all_well_typed(default_calls(certs)),
        default_calls(certs)[0] == long_call(sys::CURLOPT_NOSIGNAL, 1),
        forall|i: int|
            1 <= i < default_calls(certs).len() ==> (#[trigger] default_calls(certs)[i]).option
                == sys::CURLOPT_CAINFO || default_calls(certs)[i].option == sys::CURLOPT_CAPATH,
{
    let a = path_calls(sys::CURLOPT_CAINFO, bytes_of(certs.cert_file));
    let b = path_calls(sys::CURLOPT_CAPATH, bytes_of(certs.cert_dir));
    assert(default_calls(certs) =~= seq![long_call(sys::CURLOPT_NOSIGNAL, 1)] + a + b);
    assert forall|i: int| 0 <= i < default_calls(certs).len() implies well_typed(
        #[trigger] default_calls(certs)[i],
    ) by {
        if i >= 1 {
            if i - 1 < a.len() {
                assert(default_calls(certs)[i] == a[i - 1]);
            } else {
                assert(default_calls(certs)[i] == b[i - 1 - a.len()]);
            }
        }
    }
}

/// Installing any callback makes two well-typed calls: its function goes to
/// the callback's function option and the handle's state to the callback's
/// data option, and no two callbacks share either option.
pub proof fn callback_installation_is_well_typed(k: Callback, other: Callback)
    ensures
        all_well_typed(callback_calls(k)),
        callback_calls(k)[0].arg == Arg::Callback(k),
        callback_calls(k)[1].arg == Arg::CallbackData,
        k != other ==> callback_option(k) != callback_option(other) && callback_data_option(k)
            != callback_data_option(other),
{
    assert(well_typed(callback_calls(k)[0]));
    assert(well_typed(callback_calls(k)[1]));
}

/// Announcing a body of any size makes well-typed calls, and clears the
/// earlier body pointer before the new size is set.
pub proof fn post_field_size_is_well_typed(size: u64)
    ensures
        all_well_typed(post_field_size_calls(size)),
        post_field_size_calls(size)[0] == (Call { option: sys::CURLOPT_POSTFIELDS, arg: Arg::Null }),
        post_field_size_calls(size)[1] == off_t_call(sys::CURLOPT_POSTFIELDSIZE_LARGE, size as i64),
        post_field_size_calls(size).len() == 2,
{
    assert(well_typed(post_field_size_calls(size)[0]));
    assert(well_typed(post_field_size_calls(size)[1]));
}

/// Setting a text option either makes one well-typed call carrying exactly
/// the text, or, exactly when the text holds a NUL byte, makes no call and
/// reports `CURLE_CONV_FAILED`.
pub proof fn text_options_are_refused_exactly_for_nul<'a>(
    r: Result<Setopt<'a>, Error>,
    option: u32,
    text: Seq<u8>,
)
    requires
        text_option(r, option, text),
    ensures
        r is Err <==> has_nul(text),
        r matches Err(e) ==> e@ == sys::CURLE_CONV_FAILED,
        r matches Ok(s) ==> well_typed(s@) && s@.arg == Arg::Str(text),
{
}


/// A span is handed to libcurl in whole milliseconds: its milliseconds are
/// the largest count of milliseconds that does not exceed the span, which is
/// its seconds times 1000 plus its nanoseconds divided by one million; a span
/// of `s` whole seconds is `s * 1000` milliseconds, and a longer span is never
/// fewer milliseconds.
pub proof fn span_in_milliseconds(d: Duration, e: Duration)
    ensures
        d.millis() == d@.0 * 1000 + d@.1 / 1_000_000,
        d.millis() * 1_000_000 <= d@.0 * 1_000_000_000 + d@.1,
        d@.0 * 1_000_000_000 + d@.1 < d.millis() * 1_000_000 + 1_000_000,
        d@.1 == 0 ==> d.millis() == d@.0 * 1000,
        d@.0 * 1_000_000_000 + d@.1 <= e@.0 * 1_000_000_000 + e@.1 ==> d.millis() <= e.millis(),
{
    let q = d@.1 / 1_000_000;
    let r = d@.1 % 1_000_000;
    assert(d@.1 == q * 1_000_000 + r && 0 <= r < 1_000_000) by (nonlinear_arith)
        requires
            q == d@.1 / 1_000_000,
            r == d@.1 % 1_000_000,
    ;
    let q2 = e@.1 / 1_000_000;
    let r2 = e@.1 % 1_000_000;
    assert(e@.1 == q2 * 1_000_000 + r2 && 0 <= r2 < 1_000_000) by (nonlinear_arith)
        requires
            q2 == e@.1 / 1_000_000,
            r2 == e@.1 % 1_000_000,
    ;
}

/// The configuration of a new or reset handle hands libcurl the system's
/// certificate bundle as `CURLOPT_CAINFO` and its certificate directory as
/// `CURLOPT_CAPATH`, each exactly as found and whatever its length, whenever
/// it can be a C string; it names no other bundle or directory, and none at
/// all for a location that is missing or holds a NUL byte.
pub proof fn default_configuration_trusts_system_certificates(certs: CertLocations)
    ensures
        certs.cert_file is Some && !has_nul(certs.cert_file->0@) ==> default_calls(certs).contains(
            Call { option: sys::CURLOPT_CAINFO, arg: Arg::Str(certs.cert_file->0@) },
        ),
        certs.cert_dir is Some && !has_nul(certs.cert_dir->0@) ==> default_calls(certs).contains(
            Call { option: sys::CURLOPT_CAPATH, arg: Arg::Str(certs.cert_dir->0@) },
        ),
        forall|i: int|
            0 <= i < default_calls(certs).len() && (#[trigger] default_calls(certs)[i]).option
                == sys::CURLOPT_CAINFO ==> certs.cert_file is Some && !has_nul(
                certs.cert_file->0@,
            ) && default_calls(certs)[i].arg == Arg::Str(certs.cert_file->0@),
        forall|i: int|
            0 <= i < default_calls(certs).len() && (#[trigger] default_calls(certs)[i]).option
                == sys::CURLOPT_CAPATH ==> certs.cert_dir is Some && !has_nul(certs.cert_dir->0@)
                && default_calls(certs)[i].arg == Arg::Str(certs.cert_dir->0@),
        default_calls(certs).len() == 1 + (if certs.cert_file is Some && !has_nul(
            certs.cert_file->0@,
        ) {
            1int
        } else {
            0int
        }) + (if certs.cert_dir is Some && !has_nul(certs.cert_dir->0@) {
            1int
        } else {
            0int
        }),
{
    let a = path_calls(sys::CURLOPT_CAINFO, bytes_of(certs.cert_file));
    let b = path_calls(sys::CURLOPT_CAPATH, bytes_of(certs.cert_dir));
    let all = default_calls(certs);
    assert(all =~= seq![long_call(sys::CURLOPT_NOSIGNAL, 1)] + a + b);
    if certs.cert_file is Some && !has_nul(certs.cert_file->0@) {
        assert(all[1] == Call { option: sys::CURLOPT_CAINFO, arg: Arg::Str(certs.cert_file->0@) });
    }
    if certs.cert_dir is Some && !has_nul(certs.cert_dir->0@) {
        assert(all[1 + a.len() as int] == Call {
            option: sys::CURLOPT_CAPATH,
            arg: Arg::Str(certs.cert_dir->0@),
        });
    }
    assert forall|i: int|
        0 <= i < all.len() && (#[trigger] all[i]).option == sys::CURLOPT_CAINFO implies certs.cert_file is Some
            && !has_nul(certs.cert_file->0@) && all[i].arg == Arg::Str(certs.cert_file->0@) by {
        if i >= 1 + a.len() {
            assert(all[i] == b[i - 1 - a.len()]);
        } else if i >= 1 {
            assert(all[i] == a[i - 1]);
        }
    }
    assert forall|i: int|
        0 <= i < all.len() && (#[trigger] all[i]).option == sys::CURLOPT_CAPATH implies certs.cert_dir is Some
            && !has_nul(certs.cert_dir->0@) && all[i].arg == Arg::Str(certs.cert_dir->0@) by {
        if i >= 1 + a.len() {
            assert(all[i] == b[i - 1 - a.len()]);
        } else if i >= 1 {
            assert(all[i] == a[i - 1]);
        }
    }
}

/// Every answer of libcurl to a request for a value is reported the same way:
/// success exactly when libcurl answered `CURLE_OK`, with the value it gave;
/// otherwise an error carrying libcurl's code.
pub proof fn answers_succeed_exactly_on_ok<T>(r: Result<T, Error>, code: u32, v: T)
    requires
        answered(r, code, v),
    ensures
        r is Ok <==> code == sys::CURLE_OK,
        r matches Ok(x) ==> x == v,
        r matches Err(e) ==> e@ == code,
{
}

/// A text that libcurl gave is reported unchanged: when libcurl answered
/// `CURLE_OK` with bytes `b` that are valid UTF-8, the text reported is the
/// one whose UTF-8 encoding is exactly `b`; when they are not valid UTF-8,
/// `CURLE_CONV_FAILED` is reported; a null pointer gives no text.
pub proof fn text_answers_keep_the_bytes(r: Result<Option<String>, Error>, code: u32, value: Option<Seq<u8>>)
    requires
        text_answered(r, code, value),
    ensures
        code != sys::CURLE_OK ==> (r matches Err(e) && e@ == code),
        code == sys::CURLE_OK && value is None ==> (r matches Ok(o) && o is None),
        code == sys::CURLE_OK && value is Some && valid_utf8(value->0) ==> (r matches Ok(o) && o
            matches Some(t) && encode_utf8(t@) == value->0),
        code == sys::CURLE_OK && value is Some && !valid_utf8(value->0) ==> (r matches Err(e)
            && e@ == sys::CURLE_CONV_FAILED),
{
    if code == sys::CURLE_OK {
        if let Some(b) = value {
            if valid_utf8(b) {
                decode_utf8_encode_utf8(b);
            }
        }
    }
}


/// A flag is handed to libcurl as 1 when it is set and 0 when it is not.
pub proof fn flags_are_one_and_zero()
    ensures
        flag(true) == 1,
        flag(false) == 0,
{
}

/// Bytes that libcurl gave are reported unchanged: on `CURLE_OK` the result
/// holds bytes exactly when libcurl gave a string, and then exactly its
/// bytes; any other answer is reported as an error carrying its code.
pub proof fn byte_answers_keep_the_bytes(r: Result<Option<Vec<u8>>, Error>, code: u32, value: Option<Seq<u8>>)
    requires
        bytes_answered(r, code, value),
    ensures
        code != sys::CURLE_OK ==> (r matches Err(e) && e@ == code),
        code == sys::CURLE_OK ==> (r matches Ok(o) && (o is Some <==> value is Some) && (o is Some
            ==> o->0@ == value->0)),
{
}

/// Bytes that libcurl gave and that must be text are reported unchanged when
/// they are valid UTF-8, refused with `CURLE_CONV_FAILED` when they are not,
/// and absent for a null pointer; any other answer is an error carrying its
/// code.
pub proof fn utf8_byte_answers_keep_the_bytes(
    r: Result<Option<Vec<u8>>, Error>,
    code: u32,
    value: Option<Seq<u8>>,
)
    requires
        utf8_bytes_answered(r, code, value),
    ensures
        code != sys::CURLE_OK ==> (r matches Err(e) && e@ == code),
        code == sys::CURLE_OK && value is None ==> (r matches Ok(o) && o is None),
        code == sys::CURLE_OK && value is Some && valid_utf8(value->0) ==> (r matches Ok(o) && o
            is Some && o->0@ == value->0),
        code == sys::CURLE_OK && value is Some && !valid_utf8(value->0) ==> (r matches Err(e)
            && e@ == sys::CURLE_CONV_FAILED),
{
}

} // verus!
