use fftw3_rust::{Cx, Fftw, Re};
use num::complex::Complex64;

fn r(x: f64) -> Re {
    Re { bits: x.to_bits() }
}

fn c(re: f64, im: f64) -> Cx {
    Cx { re: re.to_bits(), im: im.to_bits() }
}

#[test]
fn test_iter_few() {
    let inputs: [&[f64]; 5] = [
        &[],
        &[1.0],
        &[1.0, -5.0],
        &[1.0, -2.0, -5.0],
        &[-2.0, 46.0, 2.0, 1.0],
    ];
    for inn in inputs.iter() {
        let inp: Vec<Re> = inn.iter().map(|x| r(*x)).collect();
        let mut fftw = Fftw::from_slice(&inp[..]);
        let _ = fftw.compute();
        let mut it = fftw.iter_symmetry();
        let out_len = fftw.output().len();
        for j in 0..out_len {
            assert!(it.next().unwrap() == fftw.output()[j]);
        }
        let skip = (fftw.input().len() + 1) % 2;
        let mut idx = out_len as isize - 1 - skip as isize;
        while idx >= 1 {
            assert!(it.next().unwrap() == fftw.output()[idx as usize].conj());
            idx -= 1;
        }
        assert!(it.next().is_none());
    }
}

#[test]
fn test_iter_odd() {
    let inp = [r(1.0), r(0.0), r(2.0), r(4.0), r(5.0), r(2.0), r(0.0), r(-1.0), r(-3.0)];
    let mut fftw = Fftw::from_slice(&inp[..]);
    let _ = fftw.compute();
    let mut it = fftw.iter_symmetry();
    let out_len = fftw.output().len();
    for j in 0..out_len {
        assert!(it.next().unwrap() == fftw.output()[j]);
    }
    let mut idx = out_len as isize - 1;
    while idx >= 1 {
        assert!(it.next().unwrap() == fftw.output()[idx as usize].conj());
        idx -= 1;
    }
    assert!(it.next().is_none());
}

#[test]
fn test_iter_even() {
    let inp = [r(1.0), r(0.0), r(2.0), r(4.0), r(5.0), r(2.0), r(0.0), r(-1.0)];
    let mut fftw = Fftw::from_slice(&inp[..]);
    let _ = fftw.compute();
    let mut it = fftw.iter_symmetry();
    let out_len = fftw.output().len();
    for j in 0..out_len {
        assert!(it.next().unwrap() == fftw.output()[j]);
    }
    let mut idx = out_len as isize - 2;
    while idx >= 1 {
        assert!(it.next().unwrap() == fftw.output()[idx as usize].conj());
        idx -= 1;
    }
    assert!(it.next().is_none());
}

#[test]
fn test_iter_round_trip_odd_values() {
    let inp = [r(1.0), r(0.0), r(2.0), r(4.0), r(5.0), r(2.0), r(0.0), r(-1.0), r(-3.0)];
    let mut fftw = Fftw::from_slice(&inp[..]);
    fftw.compute().unwrap();
    let bins = [
        c(10.0, 0.0),
        c(1.5, -2.25),
        c(-3.0, 4.0),
        c(0.25, 8.5),
        c(-7.0, -1.0),
    ];
    {
        let view = fftw.mut_output();
        for j in 0..5 {
            view[j] = bins[j];
        }
    }
    let mut it = fftw.iter_symmetry();
    let mut yielded: Vec<Cx> = Vec::new();
    while let Some(v) = it.next() {
        yielded.push(v);
    }
    assert_eq!(yielded.len(), 9);
    for j in 0..5 {
        assert!(yielded[j] == bins[j]);
    }
    assert!(yielded[5] == bins[4].conj());
    assert!(yielded[6] == bins[3].conj());
    assert!(yielded[7] == bins[2].conj());
    assert!(yielded[8] == bins[1].conj());
}

#[test]
fn test_iter_even_values() {
    let inp = [r(1.0), r(0.0), r(2.0), r(4.0), r(5.0), r(2.0), r(0.0), r(-1.0)];
    let mut fftw = Fftw::from_slice(&inp[..]);
    fftw.compute().unwrap();
    let bins = [
        c(8.0, 0.0),
        c(0.5, -1.5),
        c(-2.0, 3.0),
        c(4.25, 0.125),
        c(-6.0, 0.0),
    ];
    {
        let view = fftw.mut_output();
        for j in 0..5 {
            view[j] = bins[j];
        }
    }
    let mut it = fftw.iter_symmetry();
    let mut yielded: Vec<Cx> = Vec::new();
    while let Some(v) = it.next() {
        yielded.push(v);
    }
    assert_eq!(yielded.len(), 8);
    for j in 0..5 {
        assert!(yielded[j] == bins[j]);
    }
    assert!(yielded[5] == bins[3].conj());
    assert!(yielded[6] == bins[2].conj());
    assert!(yielded[7] == bins[1].conj());
}

#[test]
fn test_iter_zero_length_input() {
    let mut fftw = Fftw::<Re, Cx>::from_slice(&[]);
    let _ = fftw.compute();
    let mut it = fftw.iter_symmetry();
    assert!(it.next().is_none());
    assert!(it.next().is_none());
}

#[test]
fn test_iter_single_value() {
    let mut fftw = Fftw::from_slice(&[r(4.5)][..]);
    fftw.compute().unwrap();
    let mut it = fftw.iter_symmetry();
    assert!(it.next().is_some());
    assert!(it.next().is_none());
}

#[test]
fn test_conj_agrees_with_complex_arithmetic() {
    let samples = [
        (0.0, 0.0),
        (1.0, -1.0),
        (-2.5, 3.75),
        (f64::INFINITY, f64::NEG_INFINITY),
        (210.0, 22.0),
    ];
    for (re, im) in samples.iter() {
        let ours = c(*re, *im).conj();
        let theirs = Complex64::new(*re, *im).conj();
        assert_eq!(ours.re, theirs.re.to_bits());
        assert_eq!(ours.im, theirs.im.to_bits());
    }
    let nan = c(f64::NAN, f64::NAN).conj();
    assert_eq!(nan.im, f64::NAN.to_bits() ^ (1u64 << 63));
}
