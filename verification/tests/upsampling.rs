use avif_decode::ChromaSampling;
use avif_decode::Error;
use avif_decode::upsample;

#[test]
fn cs444_pairs_positionally_and_covers_every_pixel() {
    let y: Vec<u8> = vec![1, 2, 3, 4, 5, 6];
    let u: Vec<u8> = vec![11, 12, 13, 14, 15, 16];
    let v: Vec<u8> = vec![21, 22, 23, 24, 25, 26];
    let out = upsample(&y, &u, &v, 3, 2, ChromaSampling::Cs444).unwrap();
    assert_eq!(out.len(), 6);
    assert_eq!(
        out,
        vec![
            (1, 11, 21),
            (2, 12, 22),
            (3, 13, 23),
            (4, 14, 24),
            (5, 15, 25),
            (6, 16, 26),
        ]
    );
}

#[test]
fn cs420_two_by_two_block_shares_one_chroma_sample() {
    let y: Vec<u8> = vec![1, 2, 3, 4];
    let u: Vec<u8> = vec![9];
    let v: Vec<u8> = vec![7];
    let out = upsample(&y, &u, &v, 2, 2, ChromaSampling::Cs420).unwrap();
    assert_eq!(out, vec![(1, 9, 7), (2, 9, 7), (3, 9, 7), (4, 9, 7)]);
}

#[test]
fn cs420_odd_dimensions_round_chroma_planes_up() {
    let y: Vec<u8> = vec![0, 1, 2, 3, 4, 5, 6, 7, 8];
    let u: Vec<u8> = vec![10, 11, 12, 13];
    let v: Vec<u8> = vec![20, 21, 22, 23];
    let out = upsample(&y, &u, &v, 3, 3, ChromaSampling::Cs420).unwrap();
    let us: Vec<u8> = out.iter().map(|t| t.1).collect();
    assert_eq!(us, vec![10, 10, 11, 10, 10, 11, 12, 12, 13]);
}

#[test]
fn cs422_halves_width_only() {
    let y: Vec<u8> = vec![1, 2, 3, 4, 5, 6];
    let u: Vec<u8> = vec![10, 11, 12, 13];
    let v: Vec<u8> = vec![20, 21, 22, 23];
    let out = upsample(&y, &u, &v, 3, 2, ChromaSampling::Cs422).unwrap();
    let us: Vec<u8> = out.iter().map(|t| t.1).collect();
    let vs: Vec<u8> = out.iter().map(|t| t.2).collect();
    assert_eq!(us, vec![10, 10, 11, 12, 12, 13]);
    assert_eq!(vs, vec![20, 20, 21, 22, 22, 23]);
}

#[test]
fn monochrome_upsampling_is_refused() {
    let y: Vec<u8> = vec![1, 2, 3, 4];
    let none: Vec<u8> = vec![];
    let r = upsample(&y, &none, &none, 2, 2, ChromaSampling::Monochrome);
    assert_eq!(r.unwrap_err(), Error::InvalidChromaFormat);
}

#[test]
fn upsampling_sixteen_bit_samples_works_the_same() {
    let y: Vec<u16> = vec![1000, 2000, 3000, 4000];
    let u: Vec<u16> = vec![500];
    let v: Vec<u16> = vec![600];
    let out = upsample(&y, &u, &v, 2, 2, ChromaSampling::Cs420).unwrap();
    assert_eq!(
        out,
        vec![(1000, 500, 600), (2000, 500, 600), (3000, 500, 600), (4000, 500, 600)]
    );
}
