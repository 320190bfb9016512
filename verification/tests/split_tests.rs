use split_owned::FixedSeq;
use split_owned::SplitOwned;

#[test]
fn split_easy() {
    let mut v: Vec<f64> = Vec::new();
    for n in 0..19usize {
        v.push(n as f64);
    }
    let arr = FixedSeq::<f64, 19>::from_vec(v).unwrap();

    let (arr1, arr2) = arr.split_owned::<10, 9>();

    assert_eq!(arr1.into_vec(), vec![0., 1., 2., 3., 4., 5., 6., 7., 8., 9.]);
    assert_eq!(arr2.into_vec(), vec![10., 11., 12., 13., 14., 15., 16., 17., 18.]);
}

#[test]
fn split_zero() {
    let mut v: Vec<f64> = Vec::new();
    for n in 0..6usize {
        v.push(n as f64);
    }
    let arr = FixedSeq::<f64, 6>::from_vec(v).unwrap();

    let (arr1, arr2) = arr.split_owned::<0, 6>();

    assert_eq!(arr1.into_vec(), Vec::<f64>::new());
    assert_eq!(arr2.as_vec(), &vec![0., 1., 2., 3., 4., 5.]);

    let (arr1, arr2) = arr2.split_owned::<6, 0>();

    assert_eq!(arr1.into_vec(), vec![0., 1., 2., 3., 4., 5.]);
    assert_eq!(arr2.into_vec(), Vec::<f64>::new());
}

#[test]
fn split_ref() {
    let mut arr: Vec<f64> = Vec::new();
    for n in 0..6usize {
        arr.push(n as f64);
    }

    let refs_vec: Vec<&f64> = vec![&arr[0], &arr[1], &arr[2], &arr[3], &arr[4], &arr[4]];
    let refs = FixedSeq::<&f64, 6>::from_vec(refs_vec).unwrap();

    let (arr1, _) = refs.split_owned::<1, 5>();

    assert_eq!(*arr1.into_vec()[0], 0.);
}
