use doom_host::errors::HostError;
use doom_host::guest_memory::{memory_view, read_guest_bytes, read_log_text, shared_memory_size};
use doom_host::linker::allocate_shared_memory;
use wasmer::sys::{BaseTunables, NativeEngineExt};
use wasmer::{Engine, Memory, MemoryType, Pages, Store};

/// A store whose linear memories use the dynamic style, keeping the
/// virtual-address reservation close to the actual memory size.
fn host_store() -> Store {
    let mut engine = Engine::default();
    engine.set_tunables(BaseTunables {
        static_memory_bound: Pages(0),
        static_memory_offset_guard_size: 0x1_0000,
        dynamic_memory_offset_guard_size: 0x1_0000,
    });
    Store::new(engine)
}

fn small_memory() -> (Store, Memory) {
    let mut store = host_store();
    let memory = Memory::new(&mut store, MemoryType::new(1u32, None, false)).unwrap();
    (store, memory)
}

#[test]
fn read_returns_exactly_what_was_written() {
    let (store, memory) = small_memory();
    let view = memory_view(&memory, &store).unwrap();
    view.write(40, &[1u8, 2, 3, 4, 5]).unwrap();
    let bytes = read_guest_bytes(&view, 40, 5).unwrap();
    assert_eq!(bytes, vec![1u8, 2, 3, 4, 5]);
}

#[test]
fn read_of_empty_range_is_empty() {
    let (store, memory) = small_memory();
    let view = memory_view(&memory, &store).unwrap();
    let bytes = read_guest_bytes(&view, 0, 0).unwrap();
    assert_eq!(bytes, Vec::<u8>::new());
}

#[test]
fn read_up_to_the_last_byte_succeeds() {
    let (store, memory) = small_memory();
    let view = memory_view(&memory, &store).unwrap();
    let size = view.data_size();
    view.write(size - 2, &[9u8, 7]).unwrap();
    let bytes = read_guest_bytes(&view, size - 2, 2).unwrap();
    assert_eq!(bytes, vec![9u8, 7]);
}

#[test]
fn read_past_the_end_is_out_of_bounds() {
    let (store, memory) = small_memory();
    let view = memory_view(&memory, &store).unwrap();
    let size = view.data_size();
    let r = read_guest_bytes(&view, size - 2, 5);
    assert_eq!(r, Err(HostError::MemoryAccess));
}

#[test]
fn read_at_huge_offset_is_out_of_bounds_not_wrapped() {
    let (store, memory) = small_memory();
    let view = memory_view(&memory, &store).unwrap();
    let r = read_guest_bytes(&view, u64::MAX, 2);
    assert_eq!(r, Err(HostError::MemoryAccess));
    let r2 = read_guest_bytes(&view, u64::MAX - 1, usize::MAX);
    assert_eq!(r2, Err(HostError::MemoryAccess));
}

#[test]
fn log_text_decodes_guest_bytes() {
    let (store, memory) = small_memory();
    let view = memory_view(&memory, &store).unwrap();
    view.write(100, b"doom says hi").unwrap();
    let t = read_log_text(&view, 100, 12).unwrap();
    assert_eq!(t, "doom says hi");
}

#[test]
fn log_text_decodes_multibyte_characters() {
    let (store, memory) = small_memory();
    let view = memory_view(&memory, &store).unwrap();
    view.write(0, &[0xC3u8, 0xA9]).unwrap();
    let t = read_log_text(&view, 0, 2).unwrap();
    assert_eq!(t, "\u{e9}");
    assert_eq!(t.chars().count(), 1);
}

#[test]
fn log_text_rejects_invalid_bytes_as_decode_error() {
    let (store, memory) = small_memory();
    let view = memory_view(&memory, &store).unwrap();
    view.write(10, &[0xFFu8, 0xFE, 0x41]).unwrap();
    let r = read_log_text(&view, 10, 3);
    assert_eq!(r, Err(HostError::TextDecode));
    assert!(!HostError::TextDecode.is_fatal());
}

#[test]
fn log_text_out_of_bounds_is_a_distinct_error() {
    let (store, memory) = small_memory();
    let view = memory_view(&memory, &store).unwrap();
    let size = view.data_size();
    let r = read_log_text(&view, size, 1);
    assert_eq!(r, Err(HostError::MemoryAccess));
}

#[test]
fn shared_memory_has_the_declared_minimum_pages() {
    let mut store = host_store();
    let memory = allocate_shared_memory(&mut store).unwrap();
    assert_eq!(shared_memory_size(&memory, &store), Ok(102 * 65536));
    let view = memory_view(&memory, &store).unwrap();
    assert_eq!(view.data_size(), 102 * 65536);
}

#[test]
fn cross_store_view_is_refused_not_aborted() {
    let (_store_a, memory) = small_memory();
    let store_b = host_store();
    assert!(memory_view(&memory, &store_b).is_err());
    assert_eq!(shared_memory_size(&memory, &store_b), Err(HostError::Link));
}
