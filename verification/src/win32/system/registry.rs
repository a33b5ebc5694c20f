use vstd::prelude::*;

verus! {

/// `DELETE`: the right to delete the object.
pub const DELETE: u32 = 65536;

/// `REG_MUI_STRING_TRUNCATE`: the string is truncated to fit the buffer.
pub const REG_MUI_STRING_TRUNCATE: u32 = 1;

/// A registry value: its raw data and its type (`REG_SZ`, `REG_DWORD`, ...).
#[derive(Debug, Clone, PartialEq, Eq)]
pub struct RegistryValue {
    pub data: Vec<u8>,
    pub value_type: u32,
}

impl Default for RegistryValue {
    /// An empty value of type `REG_NONE`.
    fn default() -> (value: Self)
        ensures
            value.data@.len() == 0,
            value.value_type == 0,
    {
        Self { data: Vec::new(), value_type: 0 }
    }
}

/// The number of wide characters in `size` bytes, as the MUI string readers report it.
pub fn wide_chars_in_bytes(size: u32) -> (chars: u32)
    ensures
        chars == size / 2,
{
    size / 2
}

/// The flags that `load_mui_string_with_buffer` passes for `truncate`.
pub fn mui_string_flags(truncate: bool) -> (flags: u32)
    ensures
        flags == if truncate {
            REG_MUI_STRING_TRUNCATE
        } else {
            0
        },
{
    if truncate {
        REG_MUI_STRING_TRUNCATE
    } else {
        0
    }
}

/// The length, in wide characters, of the buffer that receives a class name of
/// `class_name_len` characters: the name and its nul terminator.
pub fn class_buffer_len(class_name_len: u32) -> (len: u32)
    requires
        class_name_len < u32::MAX,
    ensures
        len == class_name_len + 1,
{
    class_name_len + 1
}

/// The buffer length with which `get_class` queries a class name of `class_name_len`
/// characters, or `None` for an empty class name, which needs no query.
pub fn class_query_len(class_name_len: u32) -> (len: Option<u32>)
    requires
        class_name_len < u32::MAX,
    ensures
        len == if class_name_len == 0 {
            None
        } else {
            Some((class_name_len + 1) as u32)
        },
{
    if class_name_len == 0 {
        None
    } else {
        Some(class_buffer_len(class_name_len))
    }
}

/// The value that `enum_values` reports for an enumerated registry value: with a data
/// buffer, the first `data_len` bytes that the system wrote into it and the type it
/// reported; without one, the default value.
pub fn enumerated_value(data_buffer: Option<&[u8]>, data_len: u32, value_type: u32) -> (value:
    RegistryValue)
    requires
        data_buffer matches Some(buffer) ==> data_len <= buffer@.len(),
    ensures
        match data_buffer {
            Some(buffer) => value.data@ == buffer@.take(data_len as int) && value.value_type
                == value_type,
            None => value.data@.len() == 0 && value.value_type == 0,
        },
{
    match data_buffer {
        None => RegistryValue::default(),
        Some(buffer) => {
            let end = data_len as usize;
            let mut data: Vec<u8> = Vec::with_capacity(end);
            let mut i: usize = 0;
            while i < end
                invariant
                    i <= end,
                    end <= buffer@.len(),
                    data@ =~= buffer@.take(i as int),
                decreases end - i,
            {
                data.push(buffer[i]);
                i = i + 1;
                assert(data@ =~= buffer@.take(i as int));
            }
            RegistryValue { data, value_type }
        },
    }
}

} // verus!
