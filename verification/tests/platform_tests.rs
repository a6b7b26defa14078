use spiel::focus::{should_remember, FocusTarget};
use spiel::memory::parse_ps_rss_kib;

#[test]
fn ignores_invalid_or_own_processes() {
    assert!(!should_remember(FocusTarget { pid: -1 }, 100));
    assert!(!should_remember(FocusTarget { pid: 100 }, 100));
}

#[test]
fn parses_ps_rss_kib() {
    assert_eq!(parse_ps_rss_kib(" 1234\n"), Some(1_263_616));
    assert_eq!(parse_ps_rss_kib(""), None);
}

fn test_downmix_to_mono(interleaved: &[f32], channels: u16) -> Vec<f32> {
    if channels <= 1 {
        return interleaved.to_vec();
    }
    let ch = channels as usize;
    interleaved.chunks(ch).map(|frame| frame.iter().sum::<f32>() / frame.len() as f32).collect()
}

#[test]
fn downmix_averages_stereo() {
    let stereo = [1.0, 0.0, 0.5, 0.5];
    assert_eq!(test_downmix_to_mono(&stereo, 2), vec![0.5, 0.5]);
}

#[test]
fn downmix_passthrough_mono() {
    let mono = [0.1, 0.2, 0.3];
    assert_eq!(test_downmix_to_mono(&mono, 1), vec![0.1, 0.2, 0.3]);
}
