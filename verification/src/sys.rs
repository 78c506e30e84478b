//! The numbers of libcurl's ABI that this library uses: option and
//! information identifiers, result codes and the values of enumerated
//! option arguments, as `curl/curl.h` defines them.

use vstd::prelude::*;

verus! {

/// Base of the options that take a C `long`.
pub const CURLOPTTYPE_LONG: u32 = 0;
/// Base of the options that take a pointer to data.
pub const CURLOPTTYPE_OBJECTPOINT: u32 = 10000;
/// Base of the options that take a function pointer.
pub const CURLOPTTYPE_FUNCTIONPOINT: u32 = 20000;
/// Base of the options that take a `curl_off_t`.
pub const CURLOPTTYPE_OFF_T: u32 = 30000;
/// Base of the options that take a blob (the end of the `curl_off_t` range).
pub const CURLOPTTYPE_BLOB: u32 = 40000;

pub const CURLOPT_VERBOSE: u32 = CURLOPTTYPE_LONG + 41;
pub const CURLOPT_HEADER: u32 = CURLOPTTYPE_LONG + 42;
pub const CURLOPT_NOPROGRESS: u32 = CURLOPTTYPE_LONG + 43;
pub const CURLOPT_NOSIGNAL: u32 = CURLOPTTYPE_LONG + 99;
pub const CURLOPT_WILDCARDMATCH: u32 = CURLOPTTYPE_LONG + 197;
pub const CURLOPT_FAILONERROR: u32 = CURLOPTTYPE_LONG + 45;
pub const CURLOPT_PORT: u32 = CURLOPTTYPE_LONG + 3;
pub const CURLOPT_PROXYPORT: u32 = CURLOPTTYPE_LONG + 59;
pub const CURLOPT_PROXYTYPE: u32 = CURLOPTTYPE_LONG + 101;
pub const CURLOPT_HTTPPROXYTUNNEL: u32 = CURLOPTTYPE_LONG + 61;
pub const CURLOPT_LOCALPORT: u32 = CURLOPTTYPE_LONG + 139;
pub const CURLOPT_LOCALPORTRANGE: u32 = CURLOPTTYPE_LONG + 140;
pub const CURLOPT_DNS_CACHE_TIMEOUT: u32 = CURLOPTTYPE_LONG + 92;
pub const CURLOPT_BUFFERSIZE: u32 = CURLOPTTYPE_LONG + 98;
pub const CURLOPT_TCP_NODELAY: u32 = CURLOPTTYPE_LONG + 121;
pub const CURLOPT_ADDRESS_SCOPE: u32 = CURLOPTTYPE_LONG + 171;
pub const CURLOPT_AUTOREFERER: u32 = CURLOPTTYPE_LONG + 58;
pub const CURLOPT_TRANSFER_ENCODING: u32 = CURLOPTTYPE_LONG + 207;
pub const CURLOPT_FOLLOWLOCATION: u32 = CURLOPTTYPE_LONG + 52;
pub const CURLOPT_UNRESTRICTED_AUTH: u32 = CURLOPTTYPE_LONG + 105;
pub const CURLOPT_MAXREDIRS: u32 = CURLOPTTYPE_LONG + 68;
pub const CURLOPT_PUT: u32 = CURLOPTTYPE_LONG + 54;
pub const CURLOPT_POST: u32 = CURLOPTTYPE_LONG + 47;
pub const CURLOPT_COOKIESESSION: u32 = CURLOPTTYPE_LONG + 96;
pub const CURLOPT_HTTPGET: u32 = CURLOPTTYPE_LONG + 80;
pub const CURLOPT_IGNORE_CONTENT_LENGTH: u32 = CURLOPTTYPE_LONG + 136;
pub const CURLOPT_HTTP_CONTENT_DECODING: u32 = CURLOPTTYPE_LONG + 158;
pub const CURLOPT_HTTP_TRANSFER_DECODING: u32 = CURLOPTTYPE_LONG + 157;
pub const CURLOPT_FILETIME: u32 = CURLOPTTYPE_LONG + 69;
pub const CURLOPT_NOBODY: u32 = CURLOPTTYPE_LONG + 44;
pub const CURLOPT_UPLOAD: u32 = CURLOPTTYPE_LONG + 46;
pub const CURLOPT_TIMECONDITION: u32 = CURLOPTTYPE_LONG + 33;
pub const CURLOPT_TIMEVALUE: u32 = CURLOPTTYPE_LONG + 34;
pub const CURLOPT_TIMEOUT_MS: u32 = CURLOPTTYPE_LONG + 155;
pub const CURLOPT_LOW_SPEED_LIMIT: u32 = CURLOPTTYPE_LONG + 19;
pub const CURLOPT_LOW_SPEED_TIME: u32 = CURLOPTTYPE_LONG + 20;
pub const CURLOPT_MAXCONNECTS: u32 = CURLOPTTYPE_LONG + 71;
pub const CURLOPT_FRESH_CONNECT: u32 = CURLOPTTYPE_LONG + 74;
pub const CURLOPT_FORBID_REUSE: u32 = CURLOPTTYPE_LONG + 75;
pub const CURLOPT_CONNECTTIMEOUT_MS: u32 = CURLOPTTYPE_LONG + 156;
pub const CURLOPT_IPRESOLVE: u32 = CURLOPTTYPE_LONG + 113;
pub const CURLOPT_CONNECT_ONLY: u32 = CURLOPTTYPE_LONG + 141;
pub const CURLOPT_SSLENGINE_DEFAULT: u32 = CURLOPTTYPE_LONG + 90;
pub const CURLOPT_SSLVERSION: u32 = CURLOPTTYPE_LONG + 32;
pub const CURLOPT_SSL_VERIFYHOST: u32 = CURLOPTTYPE_LONG + 81;
pub const CURLOPT_SSL_VERIFYPEER: u32 = CURLOPTTYPE_LONG + 64;
pub const CURLOPT_CERTINFO: u32 = CURLOPTTYPE_LONG + 172;
pub const CURLOPT_SSL_SESSIONID_CACHE: u32 = CURLOPTTYPE_LONG + 150;

pub const CURLOPT_WRITEDATA: u32 = CURLOPTTYPE_OBJECTPOINT + 1;
pub const CURLOPT_READDATA: u32 = CURLOPTTYPE_OBJECTPOINT + 9;
pub const CURLOPT_SEEKDATA: u32 = CURLOPTTYPE_OBJECTPOINT + 168;
pub const CURLOPT_XFERINFODATA: u32 = CURLOPTTYPE_OBJECTPOINT + 57;
pub const CURLOPT_DEBUGDATA: u32 = CURLOPTTYPE_OBJECTPOINT + 95;
pub const CURLOPT_HEADERDATA: u32 = CURLOPTTYPE_OBJECTPOINT + 29;
pub const CURLOPT_URL: u32 = CURLOPTTYPE_OBJECTPOINT + 2;
pub const CURLOPT_PROXY: u32 = CURLOPTTYPE_OBJECTPOINT + 4;
pub const CURLOPT_NOPROXY: u32 = CURLOPTTYPE_OBJECTPOINT + 177;
pub const CURLOPT_INTERFACE: u32 = CURLOPTTYPE_OBJECTPOINT + 62;
pub const CURLOPT_USERNAME: u32 = CURLOPTTYPE_OBJECTPOINT + 173;
pub const CURLOPT_PASSWORD: u32 = CURLOPTTYPE_OBJECTPOINT + 174;
pub const CURLOPT_PROXYUSERNAME: u32 = CURLOPTTYPE_OBJECTPOINT + 175;
pub const CURLOPT_PROXYPASSWORD: u32 = CURLOPTTYPE_OBJECTPOINT + 176;
pub const CURLOPT_ACCEPT_ENCODING: u32 = CURLOPTTYPE_OBJECTPOINT + 102;
pub const CURLOPT_POSTFIELDS: u32 = CURLOPTTYPE_OBJECTPOINT + 15;
pub const CURLOPT_COPYPOSTFIELDS: u32 = CURLOPTTYPE_OBJECTPOINT + 165;
pub const CURLOPT_REFERER: u32 = CURLOPTTYPE_OBJECTPOINT + 16;
pub const CURLOPT_USERAGENT: u32 = CURLOPTTYPE_OBJECTPOINT + 18;
pub const CURLOPT_HTTPHEADER: u32 = CURLOPTTYPE_OBJECTPOINT + 23;
pub const CURLOPT_COOKIE: u32 = CURLOPTTYPE_OBJECTPOINT + 22;
pub const CURLOPT_COOKIEFILE: u32 = CURLOPTTYPE_OBJECTPOINT + 31;
pub const CURLOPT_COOKIEJAR: u32 = CURLOPTTYPE_OBJECTPOINT + 82;
pub const CURLOPT_COOKIELIST: u32 = CURLOPTTYPE_OBJECTPOINT + 135;
pub const CURLOPT_RANGE: u32 = CURLOPTTYPE_OBJECTPOINT + 7;
pub const CURLOPT_CUSTOMREQUEST: u32 = CURLOPTTYPE_OBJECTPOINT + 36;
pub const CURLOPT_SSLCERT: u32 = CURLOPTTYPE_OBJECTPOINT + 25;
pub const CURLOPT_SSLCERTTYPE: u32 = CURLOPTTYPE_OBJECTPOINT + 86;
pub const CURLOPT_SSLKEY: u32 = CURLOPTTYPE_OBJECTPOINT + 87;
pub const CURLOPT_SSLKEYTYPE: u32 = CURLOPTTYPE_OBJECTPOINT + 88;
pub const CURLOPT_KEYPASSWD: u32 = CURLOPTTYPE_OBJECTPOINT + 26;
pub const CURLOPT_SSLENGINE: u32 = CURLOPTTYPE_OBJECTPOINT + 89;
pub const CURLOPT_CAINFO: u32 = CURLOPTTYPE_OBJECTPOINT + 65;
pub const CURLOPT_ISSUERCERT: u32 = CURLOPTTYPE_OBJECTPOINT + 170;
pub const CURLOPT_CAPATH: u32 = CURLOPTTYPE_OBJECTPOINT + 97;
pub const CURLOPT_CRLFILE: u32 = CURLOPTTYPE_OBJECTPOINT + 169;
pub const CURLOPT_RANDOM_FILE: u32 = CURLOPTTYPE_OBJECTPOINT + 76;
pub const CURLOPT_EGDSOCKET: u32 = CURLOPTTYPE_OBJECTPOINT + 77;
pub const CURLOPT_SSL_CIPHER_LIST: u32 = CURLOPTTYPE_OBJECTPOINT + 83;

pub const CURLOPT_WRITEFUNCTION: u32 = CURLOPTTYPE_FUNCTIONPOINT + 11;
pub const CURLOPT_READFUNCTION: u32 = CURLOPTTYPE_FUNCTIONPOINT + 12;
pub const CURLOPT_SEEKFUNCTION: u32 = CURLOPTTYPE_FUNCTIONPOINT + 167;
pub const CURLOPT_XFERINFOFUNCTION: u32 = CURLOPTTYPE_FUNCTIONPOINT + 219;
pub const CURLOPT_DEBUGFUNCTION: u32 = CURLOPTTYPE_FUNCTIONPOINT + 94;
pub const CURLOPT_HEADERFUNCTION: u32 = CURLOPTTYPE_FUNCTIONPOINT + 79;

pub const CURLOPT_POSTFIELDSIZE_LARGE: u32 = CURLOPTTYPE_OFF_T + 120;
pub const CURLOPT_RESUME_FROM_LARGE: u32 = CURLOPTTYPE_OFF_T + 116;
pub const CURLOPT_INFILESIZE_LARGE: u32 = CURLOPTTYPE_OFF_T + 115;
pub const CURLOPT_MAXFILESIZE_LARGE: u32 = CURLOPTTYPE_OFF_T + 117;
pub const CURLOPT_MAX_SEND_SPEED_LARGE: u32 = CURLOPTTYPE_OFF_T + 145;
pub const CURLOPT_MAX_RECV_SPEED_LARGE: u32 = CURLOPTTYPE_OFF_T + 146;

/// Base of the information items that are strings.
pub const CURLINFO_STRING: u32 = 0x100000;
/// Base of the information items that are C `long`s.
pub const CURLINFO_LONG: u32 = 0x200000;
/// Base of the information items that are string lists.
pub const CURLINFO_SLIST: u32 = 0x400000;

pub const CURLINFO_EFFECTIVE_URL: u32 = CURLINFO_STRING + 1;
pub const CURLINFO_REDIRECT_URL: u32 = CURLINFO_STRING + 31;
pub const CURLINFO_CONTENT_TYPE: u32 = CURLINFO_STRING + 18;
pub const CURLINFO_PRIMARY_IP: u32 = CURLINFO_STRING + 32;
pub const CURLINFO_LOCAL_IP: u32 = CURLINFO_STRING + 41;
pub const CURLINFO_RESPONSE_CODE: u32 = CURLINFO_LONG + 2;
pub const CURLINFO_HTTP_CONNECTCODE: u32 = CURLINFO_LONG + 22;
pub const CURLINFO_FILETIME: u32 = CURLINFO_LONG + 14;
pub const CURLINFO_REDIRECT_COUNT: u32 = CURLINFO_LONG + 20;
pub const CURLINFO_HEADER_SIZE: u32 = CURLINFO_LONG + 11;
pub const CURLINFO_REQUEST_SIZE: u32 = CURLINFO_LONG + 12;
pub const CURLINFO_OS_ERRNO: u32 = CURLINFO_LONG + 25;
pub const CURLINFO_PRIMARY_PORT: u32 = CURLINFO_LONG + 40;
pub const CURLINFO_LOCAL_PORT: u32 = CURLINFO_LONG + 42;
pub const CURLINFO_COOKIELIST: u32 = CURLINFO_SLIST + 28;

/// The `CURLcode` of success.
pub const CURLE_OK: u32 = 0;
/// The `CURLcode` of a failed conversion (text that cannot be passed on).
pub const CURLE_CONV_FAILED: u32 = 75;

pub const CURLPROXY_HTTP: i32 = 0;
pub const CURLPROXY_HTTP_1_0: i32 = 1;
pub const CURLPROXY_SOCKS4: i32 = 4;
pub const CURLPROXY_SOCKS5: i32 = 5;
pub const CURLPROXY_SOCKS4A: i32 = 6;
pub const CURLPROXY_SOCKS5_HOSTNAME: i32 = 7;

pub const CURL_TIMECOND_NONE: i32 = 0;
pub const CURL_TIMECOND_IFMODSINCE: i32 = 1;
pub const CURL_TIMECOND_IFUNMODSINCE: i32 = 2;
pub const CURL_TIMECOND_LASTMOD: i32 = 3;

pub const CURL_IPRESOLVE_WHATEVER: i32 = 0;
pub const CURL_IPRESOLVE_V4: i32 = 1;
pub const CURL_IPRESOLVE_V6: i32 = 2;

pub const CURL_SSLVERSION_DEFAULT: i32 = 0;
pub const CURL_SSLVERSION_TLSV1: i32 = 1;
pub const CURL_SSLVERSION_SSLV2: i32 = 2;
pub const CURL_SSLVERSION_SSLV3: i32 = 3;

pub const CURL_SEEKFUNC_OK: i32 = 0;
pub const CURL_SEEKFUNC_FAIL: i32 = 1;
pub const CURL_SEEKFUNC_CANTSEEK: i32 = 2;

pub const CURLINFO_TEXT: u32 = 0;
pub const CURLINFO_HEADER_IN: u32 = 1;
pub const CURLINFO_HEADER_OUT: u32 = 2;
pub const CURLINFO_DATA_IN: u32 = 3;
pub const CURLINFO_DATA_OUT: u32 = 4;
pub const CURLINFO_SSL_DATA_IN: u32 = 5;
pub const CURLINFO_SSL_DATA_OUT: u32 = 6;

/// The `whence` value of an absolute seek (`SEEK_SET`).
pub const SEEK_SET: i32 = 0;

} // verus!
