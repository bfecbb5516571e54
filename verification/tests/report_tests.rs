use music_sheets::report::{description, lilypond_args, report_line};
use music_sheets::sheet::MusicSheet;

fn decode(path: &str) -> MusicSheet {
    MusicSheet::try_from(String::from(path)).unwrap()
}

#[test]
fn describes_a_melodic_record() {
    let m = decode("marches/Valse/a4/flute_I_ut.ly");
    assert_eq!(description(&m), "Valse - flute ut I [a4]");
}

#[test]
fn describes_a_fa_clef_record() {
    let m = decode("marches/Valse/a4/trombone_II_sib_clef_fa.ly");
    assert_eq!(description(&m), "Valse - trombone sib II (Clef de Fa) [a4]");
}

#[test]
fn describes_a_percussion_record() {
    let m = decode("concerts/Night/carnet/grosse_caisse.ly");
    assert_eq!(description(&m), "Night - grosse_caisse [carnet]");
}

#[test]
fn report_line_appends_the_status() {
    let m = decode("marches/Valse/a4/flute_I_ut.ly");
    assert_eq!(report_line(&m, "exit status: 0"), "Valse - flute ut I [a4]: exit status: 0");
}

#[test]
fn engine_arguments_carry_output_and_source_paths() {
    let m = decode("marches/Valse/a4/flute_I_ut.ly");
    let args = lilypond_args(&m);
    assert_eq!(
        args,
        vec![
            String::from("-o"),
            String::from("pdf/a4/Valse_flute_I_ut"),
            String::from("-fpdf"),
            String::from("-dresolution=300"),
            String::from("-dpoint-and-click=#f"),
            String::from("marches/Valse/a4/flute_I_ut.ly"),
        ]
    );
}
