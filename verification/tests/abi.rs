use curl::sys;

#[test]
fn abi_numbers_match_curl_sys() {
    assert_eq!(sys::CURLOPTTYPE_LONG as i64, curl_sys::CURLOPTTYPE_LONG as i64, "CURLOPTTYPE_LONG");
    assert_eq!(sys::CURLOPTTYPE_OBJECTPOINT as i64, curl_sys::CURLOPTTYPE_OBJECTPOINT as i64, "CURLOPTTYPE_OBJECTPOINT");
    assert_eq!(sys::CURLOPTTYPE_FUNCTIONPOINT as i64, curl_sys::CURLOPTTYPE_FUNCTIONPOINT as i64, "CURLOPTTYPE_FUNCTIONPOINT");
    assert_eq!(sys::CURLOPTTYPE_OFF_T as i64, curl_sys::CURLOPTTYPE_OFF_T as i64, "CURLOPTTYPE_OFF_T");
    assert_eq!(sys::CURLOPT_VERBOSE as i64, curl_sys::CURLOPT_VERBOSE as i64, "CURLOPT_VERBOSE");
    assert_eq!(sys::CURLOPT_HEADER as i64, curl_sys::CURLOPT_HEADER as i64, "CURLOPT_HEADER");
    assert_eq!(sys::CURLOPT_NOPROGRESS as i64, curl_sys::CURLOPT_NOPROGRESS as i64, "CURLOPT_NOPROGRESS");
    assert_eq!(sys::CURLOPT_NOSIGNAL as i64, curl_sys::CURLOPT_NOSIGNAL as i64, "CURLOPT_NOSIGNAL");
    assert_eq!(sys::CURLOPT_WILDCARDMATCH as i64, curl_sys::CURLOPT_WILDCARDMATCH as i64, "CURLOPT_WILDCARDMATCH");
    assert_eq!(sys::CURLOPT_FAILONERROR as i64, curl_sys::CURLOPT_FAILONERROR as i64, "CURLOPT_FAILONERROR");
    assert_eq!(sys::CURLOPT_PORT as i64, curl_sys::CURLOPT_PORT as i64, "CURLOPT_PORT");
    assert_eq!(sys::CURLOPT_PROXYPORT as i64, curl_sys::CURLOPT_PROXYPORT as i64, "CURLOPT_PROXYPORT");
    assert_eq!(sys::CURLOPT_PROXYTYPE as i64, curl_sys::CURLOPT_PROXYTYPE as i64, "CURLOPT_PROXYTYPE");
    assert_eq!(sys::CURLOPT_HTTPPROXYTUNNEL as i64, curl_sys::CURLOPT_HTTPPROXYTUNNEL as i64, "CURLOPT_HTTPPROXYTUNNEL");
    assert_eq!(sys::CURLOPT_LOCALPORT as i64, curl_sys::CURLOPT_LOCALPORT as i64, "CURLOPT_LOCALPORT");
    assert_eq!(sys::CURLOPT_LOCALPORTRANGE as i64, curl_sys::CURLOPT_LOCALPORTRANGE as i64, "CURLOPT_LOCALPORTRANGE");
    assert_eq!(sys::CURLOPT_DNS_CACHE_TIMEOUT as i64, curl_sys::CURLOPT_DNS_CACHE_TIMEOUT as i64, "CURLOPT_DNS_CACHE_TIMEOUT");
    assert_eq!(sys::CURLOPT_BUFFERSIZE as i64, curl_sys::CURLOPT_BUFFERSIZE as i64, "CURLOPT_BUFFERSIZE");
    assert_eq!(sys::CURLOPT_TCP_NODELAY as i64, curl_sys::CURLOPT_TCP_NODELAY as i64, "CURLOPT_TCP_NODELAY");
    assert_eq!(sys::CURLOPT_ADDRESS_SCOPE as i64, curl_sys::CURLOPT_ADDRESS_SCOPE as i64, "CURLOPT_ADDRESS_SCOPE");
    assert_eq!(sys::CURLOPT_AUTOREFERER as i64, curl_sys::CURLOPT_AUTOREFERER as i64, "CURLOPT_AUTOREFERER");
    assert_eq!(sys::CURLOPT_TRANSFER_ENCODING as i64, curl_sys::CURLOPT_TRANSFER_ENCODING as i64, "CURLOPT_TRANSFER_ENCODING");
    assert_eq!(sys::CURLOPT_FOLLOWLOCATION as i64, curl_sys::CURLOPT_FOLLOWLOCATION as i64, "CURLOPT_FOLLOWLOCATION");
    assert_eq!(sys::CURLOPT_UNRESTRICTED_AUTH as i64, curl_sys::CURLOPT_UNRESTRICTED_AUTH as i64, "CURLOPT_UNRESTRICTED_AUTH");
    assert_eq!(sys::CURLOPT_MAXREDIRS as i64, curl_sys::CURLOPT_MAXREDIRS as i64, "CURLOPT_MAXREDIRS");
    assert_eq!(sys::CURLOPT_PUT as i64, curl_sys::CURLOPT_PUT as i64, "CURLOPT_PUT");
    assert_eq!(sys::CURLOPT_POST as i64, curl_sys::CURLOPT_POST as i64, "CURLOPT_POST");
    assert_eq!(sys::CURLOPT_COOKIESESSION as i64, curl_sys::CURLOPT_COOKIESESSION as i64, "CURLOPT_COOKIESESSION");
    assert_eq!(sys::CURLOPT_HTTPGET as i64, curl_sys::CURLOPT_HTTPGET as i64, "CURLOPT_HTTPGET");
    assert_eq!(sys::CURLOPT_IGNORE_CONTENT_LENGTH as i64, curl_sys::CURLOPT_IGNORE_CONTENT_LENGTH as i64, "CURLOPT_IGNORE_CONTENT_LENGTH");
    assert_eq!(sys::CURLOPT_HTTP_CONTENT_DECODING as i64, curl_sys::CURLOPT_HTTP_CONTENT_DECODING as i64, "CURLOPT_HTTP_CONTENT_DECODING");
    assert_eq!(sys::CURLOPT_HTTP_TRANSFER_DECODING as i64, curl_sys::CURLOPT_HTTP_TRANSFER_DECODING as i64, "CURLOPT_HTTP_TRANSFER_DECODING");
    assert_eq!(sys::CURLOPT_FILETIME as i64, curl_sys::CURLOPT_FILETIME as i64, "CURLOPT_FILETIME");
    assert_eq!(sys::CURLOPT_NOBODY as i64, curl_sys::CURLOPT_NOBODY as i64, "CURLOPT_NOBODY");
    assert_eq!(sys::CURLOPT_UPLOAD as i64, curl_sys::CURLOPT_UPLOAD as i64, "CURLOPT_UPLOAD");
    assert_eq!(sys::CURLOPT_TIMECONDITION as i64, curl_sys::CURLOPT_TIMECONDITION as i64, "CURLOPT_TIMECONDITION");
    assert_eq!(sys::CURLOPT_TIMEVALUE as i64, curl_sys::CURLOPT_TIMEVALUE as i64, "CURLOPT_TIMEVALUE");
    assert_eq!(sys::CURLOPT_TIMEOUT_MS as i64, curl_sys::CURLOPT_TIMEOUT_MS as i64, "CURLOPT_TIMEOUT_MS");
    assert_eq!(sys::CURLOPT_LOW_SPEED_LIMIT as i64, curl_sys::CURLOPT_LOW_SPEED_LIMIT as i64, "CURLOPT_LOW_SPEED_LIMIT");
    assert_eq!(sys::CURLOPT_LOW_SPEED_TIME as i64, curl_sys::CURLOPT_LOW_SPEED_TIME as i64, "CURLOPT_LOW_SPEED_TIME");
    assert_eq!(sys::CURLOPT_MAXCONNECTS as i64, curl_sys::CURLOPT_MAXCONNECTS as i64, "CURLOPT_MAXCONNECTS");
    assert_eq!(sys::CURLOPT_FRESH_CONNECT as i64, curl_sys::CURLOPT_FRESH_CONNECT as i64, "CURLOPT_FRESH_CONNECT");
    assert_eq!(sys::CURLOPT_FORBID_REUSE as i64, curl_sys::CURLOPT_FORBID_REUSE as i64, "CURLOPT_FORBID_REUSE");
    assert_eq!(sys::CURLOPT_CONNECTTIMEOUT_MS as i64, curl_sys::CURLOPT_CONNECTTIMEOUT_MS as i64, "CURLOPT_CONNECTTIMEOUT_MS");
    assert_eq!(sys::CURLOPT_IPRESOLVE as i64, curl_sys::CURLOPT_IPRESOLVE as i64, "CURLOPT_IPRESOLVE");
    assert_eq!(sys::CURLOPT_CONNECT_ONLY as i64, curl_sys::CURLOPT_CONNECT_ONLY as i64, "CURLOPT_CONNECT_ONLY");
    assert_eq!(sys::CURLOPT_SSLENGINE_DEFAULT as i64, curl_sys::CURLOPT_SSLENGINE_DEFAULT as i64, "CURLOPT_SSLENGINE_DEFAULT");
    assert_eq!(sys::CURLOPT_SSLVERSION as i64, curl_sys::CURLOPT_SSLVERSION as i64, "CURLOPT_SSLVERSION");
    assert_eq!(sys::CURLOPT_SSL_VERIFYHOST as i64, curl_sys::CURLOPT_SSL_VERIFYHOST as i64, "CURLOPT_SSL_VERIFYHOST");
    assert_eq!(sys::CURLOPT_SSL_VERIFYPEER as i64, curl_sys::CURLOPT_SSL_VERIFYPEER as i64, "CURLOPT_SSL_VERIFYPEER");
    assert_eq!(sys::CURLOPT_CERTINFO as i64, curl_sys::CURLOPT_CERTINFO as i64, "CURLOPT_CERTINFO");
    assert_eq!(sys::CURLOPT_SSL_SESSIONID_CACHE as i64, curl_sys::CURLOPT_SSL_SESSIONID_CACHE as i64, "CURLOPT_SSL_SESSIONID_CACHE");
    assert_eq!(sys::CURLOPT_WRITEDATA as i64, curl_sys::CURLOPT_WRITEDATA as i64, "CURLOPT_WRITEDATA");
    assert_eq!(sys::CURLOPT_READDATA as i64, curl_sys::CURLOPT_READDATA as i64, "CURLOPT_READDATA");
    assert_eq!(sys::CURLOPT_SEEKDATA as i64, curl_sys::CURLOPT_SEEKDATA as i64, "CURLOPT_SEEKDATA");
    assert_eq!(sys::CURLOPT_XFERINFODATA as i64, curl_sys::CURLOPT_PROGRESSDATA as i64, "CURLOPT_XFERINFODATA");
    assert_eq!(sys::CURLOPT_DEBUGDATA as i64, curl_sys::CURLOPT_DEBUGDATA as i64, "CURLOPT_DEBUGDATA");
    assert_eq!(sys::CURLOPT_HEADERDATA as i64, curl_sys::CURLOPT_HEADERDATA as i64, "CURLOPT_HEADERDATA");
    assert_eq!(sys::CURLOPT_URL as i64, curl_sys::CURLOPT_URL as i64, "CURLOPT_URL");
    assert_eq!(sys::CURLOPT_PROXY as i64, curl_sys::CURLOPT_PROXY as i64, "CURLOPT_PROXY");
    assert_eq!(sys::CURLOPT_NOPROXY as i64, curl_sys::CURLOPT_NOPROXY as i64, "CURLOPT_NOPROXY");
    assert_eq!(sys::CURLOPT_INTERFACE as i64, curl_sys::CURLOPT_INTERFACE as i64, "CURLOPT_INTERFACE");
    assert_eq!(sys::CURLOPT_USERNAME as i64, curl_sys::CURLOPT_USERNAME as i64, "CURLOPT_USERNAME");
    assert_eq!(sys::CURLOPT_PASSWORD as i64, curl_sys::CURLOPT_PASSWORD as i64, "CURLOPT_PASSWORD");
    assert_eq!(sys::CURLOPT_PROXYUSERNAME as i64, curl_sys::CURLOPT_PROXYUSERNAME as i64, "CURLOPT_PROXYUSERNAME");
    assert_eq!(sys::CURLOPT_PROXYPASSWORD as i64, curl_sys::CURLOPT_PROXYPASSWORD as i64, "CURLOPT_PROXYPASSWORD");
    assert_eq!(sys::CURLOPT_ACCEPT_ENCODING as i64, curl_sys::CURLOPT_ACCEPT_ENCODING as i64, "CURLOPT_ACCEPT_ENCODING");
    assert_eq!(sys::CURLOPT_POSTFIELDS as i64, curl_sys::CURLOPT_POSTFIELDS as i64, "CURLOPT_POSTFIELDS");
    assert_eq!(sys::CURLOPT_COPYPOSTFIELDS as i64, curl_sys::CURLOPT_COPYPOSTFIELDS as i64, "CURLOPT_COPYPOSTFIELDS");
    assert_eq!(sys::CURLOPT_REFERER as i64, curl_sys::CURLOPT_REFERER as i64, "CURLOPT_REFERER");
    assert_eq!(sys::CURLOPT_USERAGENT as i64, curl_sys::CURLOPT_USERAGENT as i64, "CURLOPT_USERAGENT");
    assert_eq!(sys::CURLOPT_HTTPHEADER as i64, curl_sys::CURLOPT_HTTPHEADER as i64, "CURLOPT_HTTPHEADER");
    assert_eq!(sys::CURLOPT_COOKIE as i64, curl_sys::CURLOPT_COOKIE as i64, "CURLOPT_COOKIE");
    assert_eq!(sys::CURLOPT_COOKIEFILE as i64, curl_sys::CURLOPT_COOKIEFILE as i64, "CURLOPT_COOKIEFILE");
    assert_eq!(sys::CURLOPT_COOKIEJAR as i64, curl_sys::CURLOPT_COOKIEJAR as i64, "CURLOPT_COOKIEJAR");
    assert_eq!(sys::CURLOPT_COOKIELIST as i64, curl_sys::CURLOPT_COOKIELIST as i64, "CURLOPT_COOKIELIST");
    assert_eq!(sys::CURLOPT_RANGE as i64, curl_sys::CURLOPT_RANGE as i64, "CURLOPT_RANGE");
    assert_eq!(sys::CURLOPT_CUSTOMREQUEST as i64, curl_sys::CURLOPT_CUSTOMREQUEST as i64, "CURLOPT_CUSTOMREQUEST");
    assert_eq!(sys::CURLOPT_SSLCERT as i64, curl_sys::CURLOPT_SSLCERT as i64, "CURLOPT_SSLCERT");
    assert_eq!(sys::CURLOPT_SSLCERTTYPE as i64, curl_sys::CURLOPT_SSLCERTTYPE as i64, "CURLOPT_SSLCERTTYPE");
    assert_eq!(sys::CURLOPT_SSLKEY as i64, curl_sys::CURLOPT_SSLKEY as i64, "CURLOPT_SSLKEY");
    assert_eq!(sys::CURLOPT_SSLKEYTYPE as i64, curl_sys::CURLOPT_SSLKEYTYPE as i64, "CURLOPT_SSLKEYTYPE");
    assert_eq!(sys::CURLOPT_KEYPASSWD as i64, curl_sys::CURLOPT_KEYPASSWD as i64, "CURLOPT_KEYPASSWD");
    assert_eq!(sys::CURLOPT_SSLENGINE as i64, curl_sys::CURLOPT_SSLENGINE as i64, "CURLOPT_SSLENGINE");
    assert_eq!(sys::CURLOPT_CAINFO as i64, curl_sys::CURLOPT_CAINFO as i64, "CURLOPT_CAINFO");
    assert_eq!(sys::CURLOPT_ISSUERCERT as i64, curl_sys::CURLOPT_ISSUERCERT as i64, "CURLOPT_ISSUERCERT");
    assert_eq!(sys::CURLOPT_CAPATH as i64, curl_sys::CURLOPT_CAPATH as i64, "CURLOPT_CAPATH");
    assert_eq!(sys::CURLOPT_CRLFILE as i64, curl_sys::CURLOPT_CRLFILE as i64, "CURLOPT_CRLFILE");
    assert_eq!(sys::CURLOPT_RANDOM_FILE as i64, curl_sys::CURLOPT_RANDOM_FILE as i64, "CURLOPT_RANDOM_FILE");
    assert_eq!(sys::CURLOPT_EGDSOCKET as i64, curl_sys::CURLOPT_EGDSOCKET as i64, "CURLOPT_EGDSOCKET");
    assert_eq!(sys::CURLOPT_SSL_CIPHER_LIST as i64, curl_sys::CURLOPT_SSL_CIPHER_LIST as i64, "CURLOPT_SSL_CIPHER_LIST");
    assert_eq!(sys::CURLOPT_WRITEFUNCTION as i64, curl_sys::CURLOPT_WRITEFUNCTION as i64, "CURLOPT_WRITEFUNCTION");
    assert_eq!(sys::CURLOPT_READFUNCTION as i64, curl_sys::CURLOPT_READFUNCTION as i64, "CURLOPT_READFUNCTION");
    assert_eq!(sys::CURLOPT_SEEKFUNCTION as i64, curl_sys::CURLOPT_SEEKFUNCTION as i64, "CURLOPT_SEEKFUNCTION");
    assert_eq!(sys::CURLOPT_XFERINFOFUNCTION as i64, curl_sys::CURLOPTTYPE_FUNCTIONPOINT as i64 + 219, "CURLOPT_XFERINFOFUNCTION");
    assert_eq!(sys::CURLOPT_DEBUGFUNCTION as i64, curl_sys::CURLOPT_DEBUGFUNCTION as i64, "CURLOPT_DEBUGFUNCTION");
    assert_eq!(sys::CURLOPT_HEADERFUNCTION as i64, curl_sys::CURLOPT_HEADERFUNCTION as i64, "CURLOPT_HEADERFUNCTION");
    assert_eq!(sys::CURLOPT_POSTFIELDSIZE_LARGE as i64, curl_sys::CURLOPT_POSTFIELDSIZE_LARGE as i64, "CURLOPT_POSTFIELDSIZE_LARGE");
    assert_eq!(sys::CURLOPT_RESUME_FROM_LARGE as i64, curl_sys::CURLOPT_RESUME_FROM_LARGE as i64, "CURLOPT_RESUME_FROM_LARGE");
    assert_eq!(sys::CURLOPT_INFILESIZE_LARGE as i64, curl_sys::CURLOPT_INFILESIZE_LARGE as i64, "CURLOPT_INFILESIZE_LARGE");
    assert_eq!(sys::CURLOPT_MAXFILESIZE_LARGE as i64, curl_sys::CURLOPT_MAXFILESIZE_LARGE as i64, "CURLOPT_MAXFILESIZE_LARGE");
    assert_eq!(sys::CURLOPT_MAX_SEND_SPEED_LARGE as i64, curl_sys::CURLOPT_MAX_SEND_SPEED_LARGE as i64, "CURLOPT_MAX_SEND_SPEED_LARGE");
    assert_eq!(sys::CURLOPT_MAX_RECV_SPEED_LARGE as i64, curl_sys::CURLOPT_MAX_RECV_SPEED_LARGE as i64, "CURLOPT_MAX_RECV_SPEED_LARGE");
    assert_eq!(sys::CURLINFO_STRING as i64, curl_sys::CURLINFO_STRING as i64, "CURLINFO_STRING");
    assert_eq!(sys::CURLINFO_LONG as i64, curl_sys::CURLINFO_LONG as i64, "CURLINFO_LONG");
    assert_eq!(sys::CURLINFO_SLIST as i64, curl_sys::CURLINFO_SLIST as i64, "CURLINFO_SLIST");
    assert_eq!(sys::CURLINFO_EFFECTIVE_URL as i64, curl_sys::CURLINFO_EFFECTIVE_URL as i64, "CURLINFO_EFFECTIVE_URL");
    assert_eq!(sys::CURLINFO_REDIRECT_URL as i64, curl_sys::CURLINFO_REDIRECT_URL as i64, "CURLINFO_REDIRECT_URL");
    assert_eq!(sys::CURLINFO_CONTENT_TYPE as i64, curl_sys::CURLINFO_CONTENT_TYPE as i64, "CURLINFO_CONTENT_TYPE");
    assert_eq!(sys::CURLINFO_PRIMARY_IP as i64, curl_sys::CURLINFO_PRIMARY_IP as i64, "CURLINFO_PRIMARY_IP");
    assert_eq!(sys::CURLINFO_LOCAL_IP as i64, curl_sys::CURLINFO_LOCAL_IP as i64, "CURLINFO_LOCAL_IP");
    assert_eq!(sys::CURLINFO_RESPONSE_CODE as i64, curl_sys::CURLINFO_RESPONSE_CODE as i64, "CURLINFO_RESPONSE_CODE");
    assert_eq!(sys::CURLINFO_HTTP_CONNECTCODE as i64, curl_sys::CURLINFO_HTTP_CONNECTCODE as i64, "CURLINFO_HTTP_CONNECTCODE");
    assert_eq!(sys::CURLINFO_FILETIME as i64, curl_sys::CURLINFO_FILETIME as i64, "CURLINFO_FILETIME");
    assert_eq!(sys::CURLINFO_REDIRECT_COUNT as i64, curl_sys::CURLINFO_REDIRECT_COUNT as i64, "CURLINFO_REDIRECT_COUNT");
    assert_eq!(sys::CURLINFO_HEADER_SIZE as i64, curl_sys::CURLINFO_HEADER_SIZE as i64, "CURLINFO_HEADER_SIZE");
    assert_eq!(sys::CURLINFO_REQUEST_SIZE as i64, curl_sys::CURLINFO_REQUEST_SIZE as i64, "CURLINFO_REQUEST_SIZE");
    assert_eq!(sys::CURLINFO_OS_ERRNO as i64, curl_sys::CURLINFO_OS_ERRNO as i64, "CURLINFO_OS_ERRNO");
    assert_eq!(sys::CURLINFO_PRIMARY_PORT as i64, curl_sys::CURLINFO_PRIMARY_PORT as i64, "CURLINFO_PRIMARY_PORT");
    assert_eq!(sys::CURLINFO_LOCAL_PORT as i64, curl_sys::CURLINFO_LOCAL_PORT as i64, "CURLINFO_LOCAL_PORT");
    assert_eq!(sys::CURLINFO_COOKIELIST as i64, curl_sys::CURLINFO_COOKIELIST as i64, "CURLINFO_COOKIELIST");
    assert_eq!(sys::CURLE_OK as i64, curl_sys::CURLE_OK as i64, "CURLE_OK");
    assert_eq!(sys::CURLE_CONV_FAILED as i64, curl_sys::CURLE_CONV_FAILED as i64, "CURLE_CONV_FAILED");
    assert_eq!(sys::CURLPROXY_HTTP as i64, curl_sys::CURLPROXY_HTTP as i64, "CURLPROXY_HTTP");
    assert_eq!(sys::CURLPROXY_HTTP_1_0 as i64, curl_sys::CURLPROXY_HTTP_1_0 as i64, "CURLPROXY_HTTP_1_0");
    assert_eq!(sys::CURLPROXY_SOCKS4 as i64, curl_sys::CURLPROXY_SOCKS4 as i64, "CURLPROXY_SOCKS4");
    assert_eq!(sys::CURLPROXY_SOCKS5 as i64, curl_sys::CURLPROXY_SOCKS5 as i64, "CURLPROXY_SOCKS5");
    assert_eq!(sys::CURLPROXY_SOCKS4A as i64, curl_sys::CURLPROXY_SOCKS4A as i64, "CURLPROXY_SOCKS4A");
    assert_eq!(sys::CURLPROXY_SOCKS5_HOSTNAME as i64, curl_sys::CURLPROXY_SOCKS5_HOSTNAME as i64, "CURLPROXY_SOCKS5_HOSTNAME");
    assert_eq!(sys::CURL_TIMECOND_NONE as i64, curl_sys::CURL_TIMECOND_NONE as i64, "CURL_TIMECOND_NONE");
    assert_eq!(sys::CURL_TIMECOND_IFMODSINCE as i64, curl_sys::CURL_TIMECOND_IFMODSINCE as i64, "CURL_TIMECOND_IFMODSINCE");
    assert_eq!(sys::CURL_TIMECOND_IFUNMODSINCE as i64, curl_sys::CURL_TIMECOND_IFUNMODSINCE as i64, "CURL_TIMECOND_IFUNMODSINCE");
    assert_eq!(sys::CURL_TIMECOND_LASTMOD as i64, curl_sys::CURL_TIMECOND_LASTMOD as i64, "CURL_TIMECOND_LASTMOD");
    assert_eq!(sys::CURL_IPRESOLVE_WHATEVER as i64, curl_sys::CURL_IPRESOLVE_WHATEVER as i64, "CURL_IPRESOLVE_WHATEVER");
    assert_eq!(sys::CURL_IPRESOLVE_V4 as i64, curl_sys::CURL_IPRESOLVE_V4 as i64, "CURL_IPRESOLVE_V4");
    assert_eq!(sys::CURL_IPRESOLVE_V6 as i64, curl_sys::CURL_IPRESOLVE_V6 as i64, "CURL_IPRESOLVE_V6");
    assert_eq!(sys::CURL_SSLVERSION_DEFAULT as i64, curl_sys::CURL_SSLVERSION_DEFAULT as i64, "CURL_SSLVERSION_DEFAULT");
    assert_eq!(sys::CURL_SEEKFUNC_OK as i64, curl_sys::CURL_SEEKFUNC_OK as i64, "CURL_SEEKFUNC_OK");
    assert_eq!(sys::CURL_SEEKFUNC_FAIL as i64, curl_sys::CURL_SEEKFUNC_FAIL as i64, "CURL_SEEKFUNC_FAIL");
    assert_eq!(sys::CURL_SEEKFUNC_CANTSEEK as i64, curl_sys::CURL_SEEKFUNC_CANTSEEK as i64, "CURL_SEEKFUNC_CANTSEEK");
    assert_eq!(sys::CURLINFO_TEXT as i64, curl_sys::CURLINFO_TEXT as i64, "CURLINFO_TEXT");
    assert_eq!(sys::CURLINFO_HEADER_IN as i64, curl_sys::CURLINFO_HEADER_IN as i64, "CURLINFO_HEADER_IN");
    assert_eq!(sys::CURLINFO_HEADER_OUT as i64, curl_sys::CURLINFO_HEADER_OUT as i64, "CURLINFO_HEADER_OUT");
    assert_eq!(sys::CURLINFO_DATA_IN as i64, curl_sys::CURLINFO_DATA_IN as i64, "CURLINFO_DATA_IN");
    assert_eq!(sys::CURLINFO_DATA_OUT as i64, curl_sys::CURLINFO_DATA_OUT as i64, "CURLINFO_DATA_OUT");
    assert_eq!(sys::CURLINFO_SSL_DATA_IN as i64, curl_sys::CURLINFO_SSL_DATA_IN as i64, "CURLINFO_SSL_DATA_IN");
    assert_eq!(sys::CURLINFO_SSL_DATA_OUT as i64, curl_sys::CURLINFO_SSL_DATA_OUT as i64, "CURLINFO_SSL_DATA_OUT");
    assert_eq!(sys::CURLOPTTYPE_BLOB as i64, curl_sys::CURLOPTTYPE_BLOB as i64);
    assert_eq!(sys::CURL_SSLVERSION_TLSV1 as i64, curl_sys::CURL_SSLVERSION_TLSv1 as i64);
    assert_eq!(sys::CURL_SSLVERSION_SSLV2 as i64, curl_sys::CURL_SSLVERSION_SSLv2 as i64);
    assert_eq!(sys::CURL_SSLVERSION_SSLV3 as i64, curl_sys::CURL_SSLVERSION_SSLv3 as i64);
}

#[test]
fn seek_set_matches_libc() {
    assert_eq!(sys::SEEK_SET, libc::SEEK_SET);
}
