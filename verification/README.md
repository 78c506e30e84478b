# curl (easy interface), verified

A model of libcurl's "easy" interface whose behaviour is proved with Verus.

- `src/sys.rs` — the numbers of libcurl's ABI that the handle uses (option,
  information and result codes, values of enumerated options).
- `src/error.rs` — `Error` (a `CURLcode`) and `cvt`, which turns a code into a
  `Result`.
- `src/list.rs` — `List`, the strings of a `curl_slist`, all C strings, and
  its iterator.
- `src/easy.rs` — the handle: for every option, the `curl_easy_setopt` calls
  it needs (each proved to hand libcurl the C type its option takes); for
  every piece of information, what libcurl's answer to `curl_easy_getinfo`
  means; the results that callbacks give back to libcurl; the default
  configuration; URL escaping requests; and `next_step`, which runs a plan
  call by call and stops at the first call libcurl refuses. Each information
  method names the `CURLINFO_*` item it asks libcurl for.
- `app/` — the binding itself: it owns the `CURL` handle, makes the calls
  that `src/` decides on, keeps the callbacks, and hands libcurl's answers
  back to `src/`.
- `tests/` — the behaviour on concrete values, and a comparison of
  `src/sys.rs` with the numbers of `curl-sys` and `libc`.

The `long` arguments are modelled as `i64`, the width of a C `long` on the
64-bit Unix targets the binding is built for.
