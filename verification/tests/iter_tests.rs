use playlist_query::iter::AlmostEqualDivision;

#[test]
fn ensure_fn_almost_equal_div_works_as_expected_1() {
    let out = (0..10).collect::<Vec<i32>>().divide_collection_by(3);
    for x in out {
        assert!(x.len() <= 4);
        assert!(x.len() >= 3);
    }
}

#[test]
fn ensure_fn_almost_equal_div_works_as_expected_2() {
    let vec: Vec<i32> = Vec::new();
    let out = vec.divide_collection_by(3);
    for x in out {
        assert_eq!(x.len(), 0);
    }
}

#[test]
fn ensure_fn_almost_equal_div_works_as_expected_3() {
    let out = (0..9).collect::<Vec<i32>>().divide_collection_by(3);
    for x in out {
        assert_eq!(x.len(), 3);
    }
}

#[test]
fn ensure_fn_almost_equal_div_works_as_expected_4() {
    let out = (0..1).collect::<Vec<i32>>().divide_collection_by(3);
    for x in out {
        assert!(x.len() <= 1);
    }
}

#[test]
fn ensure_fn_almost_equal_div_works_as_expected_5() {
    let out = (0..4).collect::<Vec<i32>>().divide_collection_by(10);
    for x in out {
        assert!(x.len() <= 1);
    }
}

#[test]
fn almost_equal_div_drops_everything_on_exact_multiples() {
    // The conformance point: a non-empty collection whose size is an
    // exact multiple of the division count yields no groups at all.
    let out = (0..9).collect::<Vec<i32>>().divide_collection_by(3);
    assert_eq!(out.len(), 0);

    let out = (0..10).collect::<Vec<i32>>().divide_collection_by(5);
    assert_eq!(out.len(), 0);
}

#[test]
fn almost_equal_div_keeps_remainder_groups_only() {
    let out = (0..10).collect::<Vec<i32>>().divide_collection_by(3);
    assert_eq!(out, vec![vec![0, 1, 2, 9]]);

    let out = (0..11).collect::<Vec<i32>>().divide_collection_by(3);
    assert_eq!(out, vec![vec![0, 1, 2, 9], vec![3, 4, 5, 10]]);
}

#[test]
fn almost_equal_div_small_collections_become_singletons() {
    let out = (0..4).collect::<Vec<i32>>().divide_collection_by(10);
    assert_eq!(out, vec![vec![0], vec![1], vec![2], vec![3]]);
}
