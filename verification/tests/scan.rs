use instance_pool::capacity::{buffer_bytes, grow_capacity};
use instance_pool::layout::{desc, InstanceAttribute};
use instance_pool::record::{default_record, raw_instance, record_bytes, RawInstance};
use instance_pool::scan::{get_first_free_slot_idx, get_occupied_slots, pack};

fn tagged(tag: u32) -> RawInstance {
    let mut record = default_record();
    record[0][0] = tag;
    record[4][3] = !tag;
    record
}

#[test]
fn first_free_of_an_empty_snapshot_is_zero() {
    assert_eq!(get_first_free_slot_idx(&vec![]), 0);
}

#[test]
fn first_free_is_the_lowest_hole() {
    assert_eq!(get_first_free_slot_idx(&vec![false]), 0);
    assert_eq!(get_first_free_slot_idx(&vec![true, false, true]), 1);
    assert_eq!(get_first_free_slot_idx(&vec![true, false, false, true]), 1);
    assert_eq!(get_first_free_slot_idx(&vec![true, true, false]), 2);
}

#[test]
fn first_free_of_a_full_snapshot_is_its_length() {
    assert_eq!(get_first_free_slot_idx(&vec![true]), 1);
    assert_eq!(get_first_free_slot_idx(&vec![true, true, true]), 3);
}

#[test]
fn occupied_slots_ascend() {
    assert_eq!(get_occupied_slots(&vec![]), Vec::<usize>::new());
    assert_eq!(get_occupied_slots(&vec![false, false]), Vec::<usize>::new());
    assert_eq!(get_occupied_slots(&vec![true, false, true]), vec![0, 2]);
    assert_eq!(get_occupied_slots(&vec![false, true, true, false, true]), vec![1, 2, 4]);
    assert_eq!(get_occupied_slots(&vec![true, true, true]), vec![0, 1, 2]);
}

#[test]
fn pack_pads_with_zero_records() {
    let mirror = vec![tagged(1), tagged(2), tagged(3)];
    assert_eq!(
        pack(&mirror, &vec![true, false, true], 4),
        vec![tagged(1), tagged(3), default_record(), default_record()]
    );
    assert_eq!(pack(&mirror, &vec![false, false, false], 2), vec![default_record(); 2]);
    assert_eq!(pack(&mirror, &vec![true, true, true], 3), mirror);
    assert_eq!(pack(&vec![], &vec![], 0), Vec::<RawInstance>::new());
}

#[test]
fn pack_stops_at_the_capacity() {
    let mirror = vec![tagged(1), tagged(2), tagged(3)];
    assert_eq!(pack(&mirror, &vec![true, true, true], 2), vec![tagged(1), tagged(2)]);
}

#[test]
fn grow_capacity_doubles_until_covered() {
    assert_eq!(grow_capacity(4, 5), Some(8));
    assert_eq!(grow_capacity(4, 8), Some(8));
    assert_eq!(grow_capacity(4, 9), Some(16));
    assert_eq!(grow_capacity(1, 5), Some(8));
    assert_eq!(grow_capacity(3, 20), Some(24));
    assert_eq!(grow_capacity(5, 6), Some(10));
}

#[test]
fn grow_capacity_keeps_a_covering_capacity() {
    assert_eq!(grow_capacity(4, 4), Some(4));
    assert_eq!(grow_capacity(4, 0), Some(4));
    assert_eq!(grow_capacity(0, 0), Some(0));
    assert_eq!(grow_capacity(7, 3), Some(7));
}

#[test]
fn grow_capacity_fails_from_zero() {
    assert_eq!(grow_capacity(0, 1), None);
    assert_eq!(grow_capacity(0, usize::MAX), None);
}

#[test]
fn grow_capacity_fails_beyond_one_allocation() {
    let limit = (isize::MAX as usize) / 80;
    assert_eq!(grow_capacity(limit, limit), Some(limit));
    assert_eq!(grow_capacity(limit + 1, 0), None);
    assert_eq!(grow_capacity(limit, limit + 1), None);
    assert_eq!(grow_capacity(limit / 2 + 1, limit), None);
    assert_eq!(grow_capacity(limit / 2, limit - 1), Some(2 * (limit / 2)));
    assert_eq!(grow_capacity(1, usize::MAX), None);
    assert_eq!(grow_capacity(usize::MAX, usize::MAX), None);
}

#[test]
fn buffer_bytes_is_eighty_per_record() {
    assert_eq!(buffer_bytes(0), Some(0));
    assert_eq!(buffer_bytes(1), Some(80));
    assert_eq!(buffer_bytes(5), Some(400));
    let product = usize::MAX as u128 * 80;
    let expected = if product <= u64::MAX as u128 { Some(product as u64) } else { None };
    assert_eq!(buffer_bytes(usize::MAX), expected);
}

#[test]
fn default_record_is_all_zero() {
    assert_eq!(default_record(), [[0u32; 4]; 5]);
    assert_eq!(f32::from_bits(default_record()[3][3]), 0.0);
}

#[test]
fn raw_instance_puts_the_colour_last() {
    let transform = [[1, 2, 3, 4], [5, 6, 7, 8], [9, 10, 11, 12], [13, 14, 15, 16]];
    let color = [17, 18, 19, 20];
    assert_eq!(
        raw_instance(transform, color),
        [[1, 2, 3, 4], [5, 6, 7, 8], [9, 10, 11, 12], [13, 14, 15, 16], [17, 18, 19, 20]]
    );
}

#[test]
fn record_bytes_are_the_words_in_machine_order() {
    let mut first = default_record();
    let mut second = default_record();
    for row in 0..5 {
        for col in 0..4 {
            first[row][col] = 0x0102_0304 + (row * 4 + col) as u32;
            second[row][col] = (1.5 + (row * 4 + col) as f32).to_bits();
        }
    }
    let records = vec![first, second];
    let mut expected = Vec::new();
    for record in &records {
        for row in record {
            for word in row {
                expected.extend_from_slice(&word.to_ne_bytes());
            }
        }
    }
    let bytes = record_bytes(&records);
    assert_eq!(bytes.len(), 160);
    assert_eq!(bytes, &expected[..]);
    assert!(bytes[0] == 0x04 || bytes[0] == 0x01);
}

#[test]
fn record_bytes_of_nothing_is_empty() {
    assert_eq!(record_bytes(&vec![]).len(), 0);
}

#[test]
fn layout_is_five_vectors_back_to_back() {
    let layout = desc();
    assert_eq!(layout.array_stride, 80);
    assert_eq!(
        layout.attributes,
        [
            InstanceAttribute { offset: 0, shader_location: 5 },
            InstanceAttribute { offset: 16, shader_location: 6 },
            InstanceAttribute { offset: 32, shader_location: 7 },
            InstanceAttribute { offset: 48, shader_location: 8 },
            InstanceAttribute { offset: 64, shader_location: 9 },
        ]
    );
}
