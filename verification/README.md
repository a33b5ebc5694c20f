# win_api_wrapper

Safe building blocks for working with the Windows API, written in Verus and proved
against their contracts.

- `src/` is the verified library: error codes and errors (`base::error`), the model of
  little-endian UTF-16 buffers and multi-strings with their round-trip laws (`base`),
  the decisions that turn raw Win32, `HRESULT` and `NTSTATUS` results into `Result`s
  (`calls`), and the flags, steps and conversions that the system wrappers need
  (`win32::...`). `widestring::U16CString` is reached through one trusted wrapper.
- `app/` makes the Windows API calls themselves (`windows-sys`), hands their raw results
  to the library and returns what it decides.
- `tests/` runs the library on concrete values.
