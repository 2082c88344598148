use gpu_culling::sorting::{distance_key, draw_order, sort_by_distance, Sorting};
use ordered_float::OrderedFloat;

fn bits(values: &[f32]) -> Vec<u32> {
    values.iter().map(|v| v.to_bits()).collect()
}

const SAMPLES: [f32; 12] = [
    0.0,
    -0.0,
    1.0,
    -1.0,
    0.5,
    1.0e-40,
    -1.0e-40,
    3.4e38,
    f32::INFINITY,
    f32::NEG_INFINITY,
    f32::NAN,
    123.456,
];

#[test]
fn front_to_back_keys_order_like_ordered_floats() {
    for a in SAMPLES {
        for b in SAMPLES {
            let keys = distance_key(Sorting::FrontToBack, a.to_bits())
                .cmp(&distance_key(Sorting::FrontToBack, b.to_bits()));
            assert_eq!(keys, OrderedFloat(a).cmp(&OrderedFloat(b)));
        }
    }
}

#[test]
fn back_to_front_keys_order_like_negated_ordered_floats() {
    for a in SAMPLES {
        for b in SAMPLES {
            let keys = distance_key(Sorting::BackToFront, a.to_bits())
                .cmp(&distance_key(Sorting::BackToFront, b.to_bits()));
            assert_eq!(keys, OrderedFloat(-a).cmp(&OrderedFloat(-b)));
        }
    }
}

#[test]
fn keys_have_exact_values() {
    assert_eq!(distance_key(Sorting::FrontToBack, 1.0f32.to_bits()), 0x3f80_0000);
    assert_eq!(distance_key(Sorting::BackToFront, 1.0f32.to_bits()), -0x3f80_0000);
    assert_eq!(distance_key(Sorting::FrontToBack, (-0.0f32).to_bits()), 0);
    assert_eq!(distance_key(Sorting::BackToFront, 0), 0);
    assert_eq!(distance_key(Sorting::FrontToBack, 0xffff_ffff), 0x7f80_0001);
    assert_eq!(distance_key(Sorting::BackToFront, 0xffff_ffff), 0x7f80_0001);
}

#[test]
fn nearest_first() {
    let order = draw_order(Sorting::FrontToBack, &bits(&[9.0, 1.0, 4.0, 0.0, 25.0]));
    assert_eq!(order, vec![3, 1, 2, 0, 4]);
}

#[test]
fn farthest_first() {
    let order = draw_order(Sorting::BackToFront, &bits(&[9.0, 1.0, 4.0, 0.0, 25.0]));
    assert_eq!(order, vec![4, 0, 2, 1, 3]);
}

#[test]
fn opposite_orders_without_ties() {
    let distances = bits(&[2.0, 8.0, 3.0, 5.0, 1.0, 13.0]);
    let mut forward = draw_order(Sorting::FrontToBack, &distances);
    forward.reverse();
    assert_eq!(forward, draw_order(Sorting::BackToFront, &distances));
}

#[test]
fn what_is_not_a_number_comes_last() {
    let distances = bits(&[f32::NAN, 2.0, f32::INFINITY]);
    assert_eq!(draw_order(Sorting::FrontToBack, &distances), vec![1, 2, 0]);
    assert_eq!(draw_order(Sorting::BackToFront, &distances), vec![2, 1, 0]);
}

#[test]
fn order_covers_each_index_once() {
    let distances: Vec<u32> = (0..1000u32).map(|i| (i * 7919) % 101).collect();
    let order = draw_order(Sorting::FrontToBack, &distances);
    let mut seen = order.clone();
    seen.sort();
    assert_eq!(seen, (0..1000usize).collect::<Vec<usize>>());
    for pair in order.windows(2) {
        assert!(distances[pair[0]] <= distances[pair[1]]);
    }
}

#[test]
fn sorting_moves_items_with_their_distances() {
    let mut items = vec!['a', 'b', 'c', 'd'];
    sort_by_distance(Sorting::FrontToBack, &mut items, &bits(&[3.0, 2.0, 4.0, 1.0]));
    assert_eq!(items, vec!['d', 'b', 'a', 'c']);
    let mut none: Vec<char> = Vec::new();
    sort_by_distance(Sorting::BackToFront, &mut none, &Vec::new());
    assert!(none.is_empty());
}
