//! Tests of the coordinate, its axis and its iterator.

use utils_lib::coordinate::{Axis2D, Coordinate, CoordinateIterator};
use utils_lib::error::NoneError;

#[test]
fn coordinate_axis_2d() {
    assert_eq!(!Axis2D::Vertical, Axis2D::Horizontal);
    assert_eq!(!Axis2D::Horizontal, Axis2D::Vertical);
}

#[test]
fn axis_2d_iter() {
    assert_eq!(Axis2D::Vertical.next(), Some(Axis2D::Horizontal));
    assert_eq!(Axis2D::Horizontal.next(), None);

    assert_eq!(Axis2D::next_back(None), Some(Axis2D::Horizontal));
    assert_eq!(
        Axis2D::next_back(Some(Axis2D::Horizontal)),
        Some(Axis2D::Vertical)
    );
    assert_eq!(Axis2D::next_back(Some(Axis2D::Vertical)), None);
}

#[test]
fn iter() {
    let mut c = Coordinate::new(1_usize, 2_usize);
    let mut iter = c.iter();
    let mut i = 0_usize;
    while let Some(el) = iter.next() {
        assert_eq!(i + 1, *el);
        i += 1;
    }
    assert_eq!(i, 2);

    let mut iter = c.into_iter();
    assert_eq!(iter.size_hint(), (2, Some(2)));
    assert_eq!(iter.next_back(), Some(2));
    assert_eq!(iter.size_hint(), (1, Some(1)));
    assert_eq!(iter.next_back(), Some(1));
    assert_eq!(iter.size_hint(), (0, Some(0)));
    assert_eq!(iter.next_back(), None);
    assert_eq!(iter.size_hint(), (0, Some(0)));
    assert_eq!(iter.next_back(), None);
    assert_eq!(iter.size_hint(), (0, Some(0)));
    assert_eq!(iter.next(), None);
    assert_eq!(iter.size_hint(), (0, Some(0)));

    let mut iter = c.into_iter();
    assert_eq!(iter.size_hint(), (2, Some(2)));
    assert_eq!(iter.next(), Some(1));
    assert_eq!(iter.size_hint(), (1, Some(1)));
    assert_eq!(iter.next_back(), Some(2));
    assert_eq!(iter.size_hint(), (0, Some(0)));
    assert_eq!(iter.next_back(), None);
    assert_eq!(iter.size_hint(), (0, Some(0)));

    let mut iter = c.iter_mut();
    assert_eq!(iter.size_hint(), (2, Some(2)));
    assert_eq!(iter.next_back(), Some(&mut 2));
    assert_eq!(iter.size_hint(), (1, Some(1)));
    assert_eq!(iter.next(), Some(&mut 1));
    assert_eq!(iter.size_hint(), (0, Some(0)));
    assert_eq!(iter.next(), None);
    assert_eq!(iter.size_hint(), (0, Some(0)));

    let mut iter = CoordinateIterator::<String>::default();
    assert_eq!(iter.next(), Some(String::default()));
    assert_eq!(iter.next(), Some(String::default()));
    assert_eq!(iter.next(), None);
}

#[test]
fn conversion_iter() {
    let c = Coordinate::new(0_usize, 1_usize);
    let mut iter = c.into_iter();

    let mut i_ref = iter.as_ref();
    assert_eq!(i_ref.next(), Some(&0_usize));
    assert_eq!(i_ref.next(), Some(&1_usize));
    assert_eq!(i_ref.next(), None);

    let mut i_mut = iter.as_mut();
    let mut_ref = i_mut.next();
    assert_eq!(mut_ref, Some(&mut 0_usize));
    *mut_ref.expect("it is some") = 4_usize;

    let mut_ref = i_mut.next();
    assert_eq!(mut_ref, Some(&mut 1_usize));
    *mut_ref.expect("it is some") = 5_usize;

    assert_eq!(i_mut.next(), None);

    assert_eq!(iter.next(), Some(4_usize));
    assert_eq!(iter.next(), Some(5_usize));
    assert_eq!(iter.next(), None);
    assert_eq!(iter.next(), None);

    let mut c = Coordinate::new(0_usize, 1_usize);

    let iter = Into::<CoordinateIterator<_>>::into(c);
    assert_eq!(iter, c.into_iter());
    let iter = Into::<CoordinateIterator<_>>::into(&c);
    assert_eq!(iter, c.iter());
    let mut iter = Into::<CoordinateIterator<_>>::into(&mut c);
    assert_eq!(iter.next(), Some(&mut 0));
    assert_eq!(iter.next(), Some(&mut 1));
    assert_eq!(iter.next(), None);
}

#[test]
fn conversion_coord() {
    let coord = Coordinate::new(0_i32, 1_i32);
    let c_opt = Into::<Coordinate<Option<i32>>>::into(coord);
    assert_eq!(c_opt, Coordinate::new(Some(0_i32), Some(1_i32)));
}

#[test]
fn mod_axis_2d() {
    assert_eq!(!Axis2D::Vertical, Axis2D::Horizontal);
    assert_eq!(!Axis2D::Horizontal, Axis2D::Vertical);

    assert_eq!(Into::<usize>::into(Axis2D::Vertical), 0_usize);
    assert_eq!(Into::<usize>::into(Axis2D::Horizontal), 1_usize);

    assert_eq!(
        Into::<Coordinate<usize>>::into(Axis2D::Vertical),
        Coordinate::new(1_usize, 0_usize)
    );

    assert_eq!(Axis2D::Vertical.as_ref(), &0_usize);

    assert_eq!(Axis2D::try_from(2_usize), Err(NoneError));
    assert_eq!(Axis2D::try_from(1_usize), Ok(Axis2D::Horizontal));
}

#[test]
fn coord() {
    let mut coord = Coordinate::new(0_usize, 1_usize);
    assert_eq!(coord.get(Axis2D::Vertical), &0_usize);
    assert_eq!(coord.get(Axis2D::Horizontal), &1_usize);
    assert_eq!(coord.get_mut(Axis2D::Vertical), &mut 0_usize);
    assert_eq!(coord.get_mut(Axis2D::Horizontal), &mut 1_usize);

    assert_eq!(coord.as_tuple(), (&0_usize, &1_usize));
    assert_eq!(coord.as_tuple_mut(), (&mut 0_usize, &mut 1_usize));
    assert_eq!(coord.as_array(), [&0_usize, &1_usize]);
    assert_eq!(coord.as_array_mut(), [&mut 0_usize, &mut 1_usize]);
    assert_eq!(coord.into_tuple(), (0_usize, 1_usize));
    assert_eq!(coord.into_array(), [0_usize, 1_usize]);
    assert_eq!(coord.into_tuple_const(), (0_usize, 1_usize));
    assert_eq!(coord.into_array_const(), [0_usize, 1_usize]);

    assert_eq!(coord[0], 0_usize);
    assert_eq!(coord[1], 1_usize);

    coord[0] = 2_usize;
    assert_eq!(coord[0], 2_usize);
    coord[1] = 4_usize;
    assert_eq!(coord[1], 4_usize);
    coord[Axis2D::Vertical] = 3_usize;
    assert_eq!(coord[Axis2D::Vertical], 3_usize);
    coord[Axis2D::Horizontal] = 6_usize;
    assert_eq!(coord[Axis2D::Horizontal], 6_usize);
}

#[test]
fn coord_conversion() {
    let coord = Coordinate::new(0_usize, 1_usize);

    assert_eq!(Coordinate::from((0_usize, 1_usize)), coord);
    assert_eq!(
        <Coordinate<usize> as Into<(usize, usize)>>::into(coord),
        (0, 1)
    );
    assert_eq!(Coordinate::from([0, 1]), coord);
    assert_eq!(<Coordinate<usize> as Into<[usize; 2]>>::into(coord), [0, 1]);

    let array = [0_usize, 1_usize];
    assert_eq!(<Coordinate<usize> as From<&[usize]>>::from(&array), coord);
    assert_eq!(Coordinate::from(array.to_vec()), coord);
    let array = [4_usize];
    assert_eq!(
        <Coordinate<usize> as From<&[usize]>>::from(&array),
        Coordinate::new(4_usize, 0_usize)
    );
    assert_eq!(
        Coordinate::from(array.to_vec()),
        Coordinate::new(4_usize, 0_usize)
    );
}

#[test]
fn coord_math_on_integers() {
    let c1 = Coordinate::new(3_i32, -5_i32);
    let c2 = Coordinate::new(1_i32, 0_i32);
    let c3 = Coordinate::new(4_i32, -5_i32);

    assert_eq!(c1 + c2, c3);
    assert_eq!(c3 - c2, c1);
    assert_eq!(-c1 - c2, -c3);
    assert_eq!(-c1, Coordinate::new(-3_i32, 5_i32));
}

#[test]
fn manhattan_distance() {
    let coord_zero = Coordinate::new(0_i32, 0_i32);
    assert_eq!(coord_zero.s1_distance(&coord_zero), 0_i32);

    let coord = Coordinate::new(0_i32, 1_i32);
    assert_eq!(coord.s1_distance(&coord_zero), 1_i32);

    let coord = Coordinate::new(1_i32, 0_i32);
    assert_eq!(coord.s1_distance(&coord_zero), 1_i32);

    let coord = Coordinate::new(3_i32, 4_i32);
    assert_eq!(coord.s1_distance(&coord_zero), 7_i32);

    let coord_1 = Coordinate::new(10_i32, 22_i32);
    let coord_2 = Coordinate::new(13_i32, 21_i32);
    assert_eq!(coord_1.s1_distance(&coord_2), 4_i32);
    assert_eq!(coord_2.s1_distance(&coord_1), 4_i32);
}

#[test]
fn coordinate_of_an_array_of_owned_values() {
    let coord = Coordinate::from(["a".to_owned(), "b".to_owned()]);
    assert_eq!(coord, Coordinate::new("a".to_owned(), "b".to_owned()));
    assert_eq!(Coordinate::from([7_u8, 9_u8]), Coordinate::new(7, 9));
}

#[test]
fn manhattan_distance_by_reference() {
    let coord_1 = Coordinate::new(10_i64, 22_i64);
    let coord_2 = Coordinate::new(13_i64, 21_i64);
    assert_eq!(coord_1.s1_distance_by_ref(&coord_2), 4_i64);
    assert_eq!(coord_2.s1_distance_by_ref(&coord_1), 4_i64);
    assert_eq!(coord_1.s1_distance_by_ref(&coord_1), 0_i64);
}

#[test]
fn display_of_a_coordinate() {
    assert_eq!(Coordinate::new(4_u32, 1053_u32).to_string(), "[4, 1053]");
    assert_eq!(Coordinate::new("a", "b").to_string(), "[a, b]");
}

#[test]
fn axis_indices() {
    assert_eq!(Axis2D::from_index(0), Some(Axis2D::Vertical));
    assert_eq!(Axis2D::from_index(1), Some(Axis2D::Horizontal));
    assert_eq!(Axis2D::from_index(2), None);
    assert_eq!(Axis2D::from_index(3), None);
    assert_eq!(Axis2D::Vertical.to_index(), 0);
    assert_eq!(Axis2D::Horizontal.to_index(), 1);
    assert_eq!(Axis2D::Vertical.as_index(), &0);
    assert_eq!(Axis2D::Horizontal.as_index(), &1);
    assert_eq!(Axis2D::Vertical.perpendicular(), Axis2D::Horizontal);
    assert_eq!(Axis2D::Horizontal.perpendicular(), Axis2D::Vertical);
    assert_eq!(Axis2D::Vertical.coordinate_usize(), Coordinate::new(1, 0));
    assert_eq!(Axis2D::Horizontal.coordinate_usize(), Coordinate::new(0, 1));
    assert_eq!(Axis2D::AXIS, [Axis2D::Vertical, Axis2D::Horizontal]);
    assert_eq!(Axis2D::default(), Axis2D::Vertical);
    assert_eq!(Axis2D::size_hint(None), 2);
    assert_eq!(Axis2D::size_hint(Some(Axis2D::Horizontal)), 1);
    assert_eq!(Axis2D::size_hint(Some(Axis2D::Vertical)), 0);
}

#[test]
fn coordinate_references() {
    let mut coord = Coordinate::new(7_u8, 9_u8);
    assert_eq!(coord.x(), &7);
    assert_eq!(coord.y(), &9);
    *coord.x_mut() = 1;
    *coord.y_mut() = 2;
    assert_eq!(coord, Coordinate::new(1, 2));
    assert_eq!(coord.as_ref(), Coordinate::new(&1, &2));
    let as_mut = coord.as_mut();
    *as_mut.x = 3;
    *as_mut.y = 4;
    assert_eq!(coord.into_tuple(), (3, 4));
    assert_eq!(Coordinate::<u8>::default(), Coordinate::new(0, 0));
}

#[test]
fn fmt() {
    assert_eq!(Coordinate::new(4_u32, 1053_u32).to_string(), "[4, 1053]");
    assert_eq!(
        Coordinate::new(0o1241_u16, 0o6761_u16).format_with(|v| format!("{v:o}")),
        "[1241, 6761]"
    );
    assert_eq!(
        Coordinate::new(0x21_u8, 0xf6_u8).format_with(|v| format!("{v:x}")),
        "[21, f6]"
    );
    assert_eq!(
        Coordinate::new(0x21_u8, 0xf6_u8).format_with(|v| format!("{v:X}")),
        "[21, F6]"
    );

    let x = 1_i32;
    let y = 2_i32;
    let c = Coordinate::new(&x, &y);
    assert_eq!(
        c.format_with(|v| format!("{:p}", *v)),
        format!("[{:p}, {:p}]", &x, &y)
    );

    assert_eq!(
        Coordinate::new(0b_0011_1111, 0b_1100_0000_u8).format_with(|v| format!("{v:b}")),
        "[111111, 11000000]"
    );
    assert_eq!(
        Coordinate::new(1.4e+5_f64, 6.7e-6_f64).format_with(|v| format!("{v:e}")),
        "[1.4e5, 6.7e-6]"
    );
    assert_eq!(
        Coordinate::new(1.4E+5_f64, 6.7E-6_f64).format_with(|v| format!("{v:E}")),
        "[1.4E5, 6.7E-6]"
    );
    assert_eq!(
        Coordinate::new(1.44_f64, 6.78_f64).format_with(|v| format!("{v:.1}")),
        "[1.4, 6.8]"
    );
}
