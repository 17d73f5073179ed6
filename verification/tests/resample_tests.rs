use wizscribe::resample::resample_linear;

#[test]
fn resample_identity_exact_rate() {
    let xs: Vec<i32> = vec![5, -7, 32768, -32768, 0];
    let out = resample_linear(&xs, 16000, 16000);
    assert_eq!(out, xs);
}

#[test]
fn resample_identity_within_band() {
    // 16100/16000 = 1.00625, well inside the 1% identity band
    let xs: Vec<i32> = vec![1, 2, 3, 4];
    let out = resample_linear(&xs, 16100, 16000);
    assert_eq!(out, xs);
}

#[test]
fn resample_identity_band_edge_excluded() {
    // 10100/10000 = 1.01 is exactly on the band edge, so it resamples:
    // floor(4 * 1.01) = 4 samples, interpolated
    let xs: Vec<i32> = vec![1000, 1000, 1000, 1000];
    let out = resample_linear(&xs, 10100, 10000);
    assert_eq!(out.len(), 4);
}

#[test]
fn resample_length_law_downsample() {
    let xs: Vec<i32> = vec![0; 10];
    let out = resample_linear(&xs, 8000, 16000);
    assert_eq!(out.len(), 5);
}

#[test]
fn resample_length_law_upsample() {
    let xs: Vec<i32> = vec![0; 10];
    let out = resample_linear(&xs, 48000, 16000);
    assert_eq!(out.len(), 30);
}

#[test]
fn resample_length_law_floor() {
    // floor(7 * 16000 / 44100) = floor(2.539...) = 2
    let xs: Vec<i32> = vec![0; 7];
    let out = resample_linear(&xs, 16000, 44100);
    assert_eq!(out.len(), 2);
}

#[test]
fn resample_empty_input() {
    let xs: Vec<i32> = Vec::new();
    let out = resample_linear(&xs, 48000, 16000);
    assert_eq!(out.len(), 0);
}

#[test]
fn resample_upsample_interpolates() {
    // ratio 2: output index 1 sits halfway between samples 0 and 1,
    // and indices past the input clamp to the last sample
    let xs: Vec<i32> = vec![0, 32768];
    let out = resample_linear(&xs, 32000, 16000);
    assert_eq!(out, vec![0, 16384, 32768, 32768]);
}

#[test]
fn resample_downsample_picks_every_other() {
    let xs: Vec<i32> = vec![0, 10, 20, 30];
    let out = resample_linear(&xs, 8000, 16000);
    assert_eq!(out, vec![0, 20]);
}

#[test]
fn resample_interpolates_negative_slope() {
    // ratio 2 on a falling pair: halfway between 100 and -100 is 0
    let xs: Vec<i32> = vec![100, -100];
    let out = resample_linear(&xs, 32000, 16000);
    assert_eq!(out, vec![100, 0, -100, -100]);
}
