use ascii_video::ascii::{
    blend_of, compose_frame, compose_line, compose_row, compose_row_batched, frame_len_matches,
    glyph_for, ink_of, luminance_of, ramp_index_of, ramp_symbol_at, rgb_to_colored_ascii, Glyph,
    Rgb, BATCH_WIDTH, CONTRAST_DEFAULT, CONTRAST_NEUTRAL, RAMP_LEN,
};
use ratatui::style::{Color, Style};
use ratatui::text::Line;

const RAMP: &str = "  .:-=+*#%@";

fn rgb(red: u8, green: u8, blue: u8) -> Rgb {
    Rgb { red, green, blue }
}

fn uniform(width: usize, height: usize, color: (u8, u8, u8)) -> Vec<u8> {
    let mut raster: Vec<u8> = Vec::with_capacity(width * height * 3);
    for _ in 0..width * height {
        raster.push(color.0);
        raster.push(color.1);
        raster.push(color.2);
    }
    raster
}

fn scrambled(len: usize, seed: u64) -> Vec<u8> {
    let mut state: u64 = seed;
    let mut raster: Vec<u8> = Vec::with_capacity(len);
    for _ in 0..len {
        state = state.wrapping_mul(6364136223846793005).wrapping_add(1442695040888963407);
        raster.push((state >> 56) as u8);
    }
    raster
}

fn float_glyph(top: (u8, u8, u8), bottom: (u8, u8, u8), percent: f64) -> (char, (u8, u8, u8)) {
    let r: u32 = (top.0 as u32 + bottom.0 as u32) / 2;
    let g: u32 = (top.1 as u32 + bottom.1 as u32) / 2;
    let b: u32 = (top.2 as u32 + bottom.2 as u32) / 2;
    let lum: f64 = ((54 * r + 183 * g + 19 * b) / 256) as f64;
    let adjusted: f64 = ((lum - 128.0) * (percent / 100.0) + 128.0).clamp(0.0, 255.0);
    let index: usize = (adjusted / 255.0 * 10.0).round().clamp(0.0, 10.0) as usize;
    let symbol: char = RAMP.chars().nth(index).unwrap();
    (symbol, ((r * 4 / 5) as u8, (g * 4 / 5) as u8, (b * 4 / 5) as u8))
}

fn shown(line: &Line<'static>) -> Vec<(String, Option<Color>)> {
    line.spans.iter().map(|span| (span.content.to_string(), span.style.fg)).collect()
}

#[test]
fn ramp_runs_from_blank_to_dense() {
    assert_eq!(RAMP_LEN, 11);
    let mut index: usize = 0;
    for symbol in RAMP.chars() {
        assert_eq!(ramp_symbol_at(index), symbol);
        index += 1;
    }
    assert_eq!(index, RAMP_LEN);
    assert_eq!(ramp_symbol_at(0), ' ');
    assert_eq!(ramp_symbol_at(10), '@');
}

#[test]
fn ramp_holds_the_densest_symbol_past_its_end() {
    assert_eq!(ramp_symbol_at(11), '@');
    assert_eq!(ramp_symbol_at(usize::MAX), '@');
}

#[test]
fn luminance_weights_sum_to_the_divisor() {
    assert_eq!(luminance_of(rgb(255, 255, 255)), 255);
    assert_eq!(luminance_of(rgb(0, 0, 0)), 0);
    assert_eq!(luminance_of(rgb(128, 128, 128)), 128);
    assert_eq!(luminance_of(rgb(1, 1, 1)), 1);
}

#[test]
fn luminance_weighs_green_most_and_blue_least() {
    assert_eq!(luminance_of(rgb(255, 0, 0)), 53);
    assert_eq!(luminance_of(rgb(0, 255, 0)), 182);
    assert_eq!(luminance_of(rgb(0, 0, 255)), 18);
    assert_eq!(luminance_of(rgb(10, 20, 30)), 18);
    assert_eq!(luminance_of(rgb(200, 100, 50)), 117);
}

#[test]
fn ramp_index_rounds_to_the_nearest_symbol() {
    assert_eq!(ramp_index_of(0, CONTRAST_NEUTRAL), 0);
    assert_eq!(ramp_index_of(12, CONTRAST_NEUTRAL), 0);
    assert_eq!(ramp_index_of(13, CONTRAST_NEUTRAL), 1);
    assert_eq!(ramp_index_of(38, CONTRAST_NEUTRAL), 1);
    assert_eq!(ramp_index_of(39, CONTRAST_NEUTRAL), 2);
    assert_eq!(ramp_index_of(127, CONTRAST_NEUTRAL), 5);
    assert_eq!(ramp_index_of(128, CONTRAST_NEUTRAL), 5);
    assert_eq!(ramp_index_of(242, CONTRAST_NEUTRAL), 9);
    assert_eq!(ramp_index_of(243, CONTRAST_NEUTRAL), 10);
    assert_eq!(ramp_index_of(255, CONTRAST_NEUTRAL), 10);
}

#[test]
fn ramp_index_matches_the_rounded_quotient_at_neutral_contrast() {
    let mut lum: u16 = 0;
    while lum < 256 {
        let expected: usize = (lum as f64 / 255.0 * 10.0).round() as usize;
        assert_eq!(ramp_index_of(lum as u8, CONTRAST_NEUTRAL), expected);
        lum += 1;
    }
}

#[test]
fn contrast_spreads_luminance_around_mid_grey() {
    assert_eq!(CONTRAST_DEFAULT, 105);
    assert_eq!(ramp_index_of(140, CONTRAST_NEUTRAL), 5);
    assert_eq!(ramp_index_of(140, CONTRAST_DEFAULT), 6);
    assert_eq!(ramp_index_of(128, CONTRAST_DEFAULT), 5);
    assert_eq!(ramp_index_of(0, CONTRAST_DEFAULT), 0);
    assert_eq!(ramp_index_of(6, CONTRAST_DEFAULT), 0);
    assert_eq!(ramp_index_of(255, CONTRAST_DEFAULT), 10);
    assert_eq!(ramp_index_of(250, CONTRAST_DEFAULT), 10);
}

#[test]
fn contrast_is_held_within_the_ramp() {
    assert_eq!(ramp_index_of(129, u16::MAX), 10);
    assert_eq!(ramp_index_of(127, u16::MAX), 0);
    assert_eq!(ramp_index_of(128, u16::MAX), 5);
    assert_eq!(ramp_index_of(0, 0), 5);
    assert_eq!(ramp_index_of(255, 0), 5);
}

#[test]
fn ramp_index_matches_the_formula_in_floats_at_every_gain_tried() {
    for percent in [0u16, 50, 95, 100, 105, 150, 400].iter() {
        let mut lum: u16 = 0;
        while lum < 256 {
            let adjusted: f64 =
                ((lum as f64 - 128.0) * (*percent as f64 / 100.0) + 128.0).clamp(0.0, 255.0);
            let expected: usize = (adjusted / 255.0 * 10.0).round() as usize;
            assert_eq!(ramp_index_of(lum as u8, *percent), expected);
            lum += 1;
        }
    }
}

#[test]
fn brighter_grey_never_gets_a_sparser_symbol() {
    for percent in [100u16, 105, 250].iter() {
        let mut previous: usize = 0;
        let mut level: u16 = 0;
        while level < 256 {
            let grey: Rgb = rgb(level as u8, level as u8, level as u8);
            let lum: u8 = luminance_of(grey);
            assert_eq!(lum, level as u8);
            let index: usize = ramp_index_of(lum, *percent);
            assert!(index >= previous);
            assert!(index < RAMP_LEN);
            previous = index;
            level += 1;
        }
    }
}

#[test]
fn raising_all_channels_never_lowers_luminance() {
    let dim: Rgb = rgb(10, 200, 30);
    let bright: Rgb = rgb(11, 200, 90);
    assert!(luminance_of(dim) <= luminance_of(bright));
    assert_eq!(luminance_of(dim), 147);
    assert_eq!(luminance_of(bright), 151);
    assert!(ramp_index_of(147, CONTRAST_DEFAULT) <= ramp_index_of(151, CONTRAST_DEFAULT));
}

#[test]
fn two_pixels_are_averaged_per_channel() {
    assert_eq!(blend_of(rgb(0, 0, 0), rgb(255, 255, 255)), rgb(127, 127, 127));
    assert_eq!(blend_of(rgb(10, 20, 30), rgb(20, 30, 41)), rgb(15, 25, 35));
    assert_eq!(blend_of(rgb(255, 255, 255), rgb(255, 255, 255)), rgb(255, 255, 255));
    assert_eq!(blend_of(rgb(1, 0, 3), rgb(0, 1, 4)), rgb(0, 0, 3));
}

#[test]
fn ink_is_four_fifths_of_the_colour() {
    assert_eq!(ink_of(rgb(255, 255, 255)), rgb(204, 204, 204));
    assert_eq!(ink_of(rgb(0, 1, 2)), rgb(0, 0, 1));
    assert_eq!(ink_of(rgb(5, 128, 254)), rgb(4, 102, 203));
}

#[test]
fn glyph_of_a_pixel_pair() {
    let glyph: Glyph = glyph_for(rgb(200, 100, 50), rgb(100, 200, 150), CONTRAST_NEUTRAL);
    // mean (150, 150, 100), luminance 146, index round(5.73) = 6
    assert_eq!(glyph, Glyph { symbol: '+', color: rgb(120, 120, 80) });
}

#[test]
fn black_block_gives_the_blank_glyph_in_black() {
    let raster: Vec<u8> = uniform(4, 2, (0, 0, 0));
    let blank: Glyph = Glyph { symbol: ' ', color: rgb(0, 0, 0) };
    let frame: Vec<Vec<Glyph>> = compose_frame(&raster, 4, 2, CONTRAST_DEFAULT).unwrap();
    assert_eq!(frame, vec![vec![blank; 4]]);
    let neutral: Vec<Vec<Glyph>> = compose_frame(&raster, 4, 2, CONTRAST_NEUTRAL).unwrap();
    assert_eq!(neutral, vec![vec![blank; 4]]);
}

#[test]
fn white_block_gives_the_densest_glyph_toned_down() {
    let raster: Vec<u8> = uniform(4, 2, (255, 255, 255));
    let dense: Glyph = Glyph { symbol: '@', color: rgb(204, 204, 204) };
    let frame: Vec<Vec<Glyph>> = compose_frame(&raster, 4, 2, CONTRAST_DEFAULT).unwrap();
    assert_eq!(frame, vec![vec![dense; 4]]);
    let neutral: Vec<Vec<Glyph>> = compose_frame(&raster, 4, 2, CONTRAST_NEUTRAL).unwrap();
    assert_eq!(neutral, vec![vec![dense; 4]]);
}

#[test]
fn black_block_is_drawn_as_blank_lines() {
    let raster: Vec<u8> = uniform(4, 2, (0, 0, 0));
    let mut lines: Vec<Line<'static>> = Vec::new();
    assert!(rgb_to_colored_ascii(&raster, 4, 2, &mut lines));
    assert_eq!(lines.len(), 1);
    assert_eq!(shown(&lines[0]), vec![(" ".to_string(), Some(Color::Rgb(0, 0, 0))); 4]);
}

#[test]
fn white_block_is_drawn_as_dense_lines() {
    let raster: Vec<u8> = uniform(4, 2, (255, 255, 255));
    let mut lines: Vec<Line<'static>> = Vec::new();
    assert!(rgb_to_colored_ascii(&raster, 4, 2, &mut lines));
    assert_eq!(lines.len(), 1);
    assert_eq!(shown(&lines[0]), vec![("@".to_string(), Some(Color::Rgb(204, 204, 204))); 4]);
}

#[test]
fn lines_carry_nothing_but_symbols_and_foreground() {
    let raster: Vec<u8> = scrambled(5 * 4 * 3, 11);
    let mut lines: Vec<Line<'static>> = Vec::new();
    assert!(rgb_to_colored_ascii(&raster, 5, 4, &mut lines));
    for line in lines.iter() {
        assert_eq!(line.style, Style::default());
        assert_eq!(line.alignment, None);
        for span in line.spans.iter() {
            assert_eq!(span.content.chars().count(), 1);
            assert_eq!(span.style, Style::default().fg(span.style.fg.unwrap()));
        }
    }
}

#[test]
fn lines_show_the_cells_of_the_frame() {
    let raster: Vec<u8> = scrambled(7 * 6 * 3, 3);
    let frame: Vec<Vec<Glyph>> = compose_frame(&raster, 7, 6, CONTRAST_DEFAULT).unwrap();
    let mut lines: Vec<Line<'static>> = Vec::new();
    assert!(rgb_to_colored_ascii(&raster, 7, 6, &mut lines));
    assert_eq!(lines.len(), frame.len());
    for (line, row) in lines.iter().zip(frame.iter()) {
        let expected: Vec<(String, Option<Color>)> = row
            .iter()
            .map(|g| {
                let ink: Color = Color::Rgb(g.color.red, g.color.green, g.color.blue);
                (g.symbol.to_string(), Some(ink))
            })
            .collect();
        assert_eq!(shown(line), expected);
    }
}

#[test]
fn single_line_is_the_row_of_the_frame() {
    let raster: Vec<u8> = scrambled(6 * 4 * 3, 5);
    let mut lines: Vec<Line<'static>> = Vec::new();
    assert!(rgb_to_colored_ascii(&raster, 6, 4, &mut lines));
    assert_eq!(compose_line(&raster, 6, 4, 0), Some(lines[0].clone()));
    assert_eq!(compose_line(&raster, 6, 4, 1), Some(lines[1].clone()));
    assert_eq!(compose_line(&raster, 6, 4, 2), None);
    assert_eq!(compose_line(&raster[1..], 6, 4, 0), None);
}

#[test]
fn output_is_emptied_before_it_is_filled() {
    let raster: Vec<u8> = uniform(3, 4, (90, 90, 90));
    let mut lines: Vec<Line<'static>> = vec![Line::from("left over"), Line::from("from before")];
    assert!(rgb_to_colored_ascii(&raster, 3, 4, &mut lines));
    assert_eq!(lines.len(), 2);
    assert_eq!(lines[0].spans.len(), 3);
    assert!(rgb_to_colored_ascii(&raster, 3, 4, &mut lines));
    assert_eq!(lines.len(), 2);
}

#[test]
fn frame_of_the_wrong_length_is_dropped_whole() {
    let raster: Vec<u8> = uniform(4, 2, (255, 255, 255));
    let mut lines: Vec<Line<'static>> = vec![Line::from("left over")];
    assert!(!rgb_to_colored_ascii(&raster[..23], 4, 2, &mut lines));
    assert!(lines.is_empty());
    let mut longer: Vec<u8> = raster.clone();
    longer.push(0);
    assert!(!rgb_to_colored_ascii(&longer, 4, 2, &mut lines));
    assert!(lines.is_empty());
    assert_eq!(compose_frame(&raster[..23], 4, 2, CONTRAST_DEFAULT), None);
    assert_eq!(compose_frame(&longer, 4, 2, CONTRAST_DEFAULT), None);
    assert_eq!(compose_frame(&raster, 2, 4, CONTRAST_DEFAULT).map(|f| f.len()), Some(2));
    assert_eq!(compose_frame(&raster, 4, 3, CONTRAST_DEFAULT), None);
    assert_eq!(compose_row(&longer, 4, 2, 0, CONTRAST_DEFAULT), None);
    assert_eq!(compose_row_batched(&longer, 4, 2, 0, CONTRAST_DEFAULT), None);
}

#[test]
fn frame_length_check() {
    assert!(frame_len_matches(24, 4, 2));
    assert!(frame_len_matches(15000, 100, 50));
    assert!(!frame_len_matches(14999, 100, 50));
    assert!(!frame_len_matches(15001, 100, 50));
    assert!(frame_len_matches(0, 0, 7));
    assert!(frame_len_matches(0, 7, 0));
    assert!(!frame_len_matches(1, 0, 0));
    assert!(!frame_len_matches(0, usize::MAX, 2));
    assert!(!frame_len_matches(usize::MAX, usize::MAX, 1));
    assert!(!frame_len_matches(0, usize::MAX, usize::MAX));
}

#[test]
fn frame_has_half_the_pixel_rows_and_all_the_columns() {
    let sizes: [(usize, usize); 6] = [(100, 50), (120, 115), (1, 2), (7, 9), (4, 3), (3, 1)];
    for (width, height) in sizes.iter() {
        let raster: Vec<u8> = scrambled(width * height * 3, 1);
        let frame: Vec<Vec<Glyph>> =
            compose_frame(&raster, *width, *height, CONTRAST_DEFAULT).unwrap();
        assert_eq!(frame.len(), height / 2);
        for row in frame.iter() {
            assert_eq!(row.len(), *width);
        }
        let mut lines: Vec<Line<'static>> = Vec::new();
        assert!(rgb_to_colored_ascii(&raster, *width, *height, &mut lines));
        assert_eq!(lines.len(), height / 2);
        for line in lines.iter() {
            assert_eq!(line.spans.len(), *width);
        }
    }
}

#[test]
fn frame_without_a_full_pair_of_rows_has_no_text_rows() {
    let empty: Vec<Vec<Glyph>> = Vec::new();
    assert_eq!(compose_frame(&[], 0, 0, CONTRAST_DEFAULT), Some(empty.clone()));
    assert_eq!(compose_frame(&[], 5, 0, CONTRAST_DEFAULT), Some(empty.clone()));
    assert_eq!(compose_frame(&[1, 2, 3, 4, 5, 6], 2, 1, CONTRAST_DEFAULT), Some(empty));
    let mut lines: Vec<Line<'static>> = vec![Line::from("left over")];
    assert!(rgb_to_colored_ascii(&[], 0, 0, &mut lines));
    assert!(lines.is_empty());
}

#[test]
fn frame_without_columns_has_empty_rows() {
    let no_cells: Vec<Glyph> = Vec::new();
    assert_eq!(compose_frame(&[], 0, 4, CONTRAST_DEFAULT), Some(vec![no_cells.clone(), no_cells]));
}

#[test]
fn odd_last_pixel_row_is_left_out() {
    let mut raster: Vec<u8> = uniform(2, 2, (255, 255, 255));
    raster.extend_from_slice(&uniform(2, 1, (0, 0, 0)));
    let frame: Vec<Vec<Glyph>> = compose_frame(&raster, 2, 3, CONTRAST_NEUTRAL).unwrap();
    assert_eq!(frame, vec![vec![Glyph { symbol: '@', color: rgb(204, 204, 204) }; 2]]);
}

#[test]
fn rows_come_in_the_order_of_their_index() {
    // four pixel rows: white, white, black, black
    let mut raster: Vec<u8> = uniform(3, 2, (255, 255, 255));
    raster.extend_from_slice(&uniform(3, 2, (0, 0, 0)));
    let frame: Vec<Vec<Glyph>> = compose_frame(&raster, 3, 4, CONTRAST_NEUTRAL).unwrap();
    assert_eq!(frame[0], vec![Glyph { symbol: '@', color: rgb(204, 204, 204) }; 3]);
    assert_eq!(frame[1], vec![Glyph { symbol: ' ', color: rgb(0, 0, 0) }; 3]);
    assert_eq!(compose_row(&raster, 3, 4, 0, CONTRAST_NEUTRAL).unwrap(), frame[0]);
    assert_eq!(compose_row(&raster, 3, 4, 1, CONTRAST_NEUTRAL).unwrap(), frame[1]);
    assert_eq!(compose_row(&raster, 3, 4, 2, CONTRAST_NEUTRAL), None);
}

#[test]
fn columns_come_in_the_order_of_their_index() {
    // one text row, three columns: red over red, green over green, blue over blue
    let raster: Vec<u8> = vec![
        255, 0, 0, 0, 255, 0, 0, 0, 255, //
        255, 0, 0, 0, 255, 0, 0, 0, 255,
    ];
    let row: Vec<Glyph> = compose_row(&raster, 3, 2, 0, CONTRAST_NEUTRAL).unwrap();
    assert_eq!(
        row,
        vec![
            Glyph { symbol: '.', color: rgb(204, 0, 0) },
            Glyph { symbol: '*', color: rgb(0, 204, 0) },
            Glyph { symbol: ' ', color: rgb(0, 0, 204) },
        ]
    );
}

#[test]
fn pixel_pairs_are_taken_from_rows_one_above_the_other() {
    // two columns; column 0 is black over white, column 1 white over white
    let raster: Vec<u8> = vec![
        0, 0, 0, 255, 255, 255, //
        255, 255, 255, 255, 255, 255,
    ];
    let row: Vec<Glyph> = compose_row(&raster, 2, 2, 0, CONTRAST_NEUTRAL).unwrap();
    assert_eq!(row[0], Glyph { symbol: '=', color: rgb(101, 101, 101) });
    assert_eq!(row[1], Glyph { symbol: '@', color: rgb(204, 204, 204) });
}

#[test]
fn batched_and_scalar_rows_are_identical() {
    assert_eq!(BATCH_WIDTH, 4);
    let mut width: usize = 0;
    while width <= 13 {
        let height: usize = 6;
        let raster: Vec<u8> = scrambled(width * height * 3, 40 + width as u64);
        let mut row: usize = 0;
        while row < height / 2 {
            let scalar: Vec<Glyph> =
                compose_row(&raster, width, height, row, CONTRAST_DEFAULT).unwrap();
            let batched: Vec<Glyph> =
                compose_row_batched(&raster, width, height, row, CONTRAST_DEFAULT).unwrap();
            assert_eq!(scalar, batched);
            assert_eq!(scalar.len(), width);
            row += 1;
        }
        width += 1;
    }
}

#[test]
fn frame_is_made_of_its_scalar_rows() {
    let raster: Vec<u8> = scrambled(100 * 50 * 3, 2024);
    let frame: Vec<Vec<Glyph>> = compose_frame(&raster, 100, 50, CONTRAST_DEFAULT).unwrap();
    assert_eq!(frame.len(), 25);
    let mut row: usize = 0;
    while row < 25 {
        assert_eq!(frame[row], compose_row(&raster, 100, 50, row, CONTRAST_DEFAULT).unwrap());
        row += 1;
    }
}

#[test]
fn same_bytes_give_the_same_frame() {
    let raster: Vec<u8> = scrambled(9 * 8 * 3, 77);
    let copy: Vec<u8> = raster.clone();
    assert_eq!(
        compose_frame(&raster, 9, 8, CONTRAST_DEFAULT),
        compose_frame(&copy, 9, 8, CONTRAST_DEFAULT)
    );
    let mut first: Vec<Line<'static>> = Vec::new();
    let mut second: Vec<Line<'static>> = vec![Line::from("left over")];
    assert!(rgb_to_colored_ascii(&raster, 9, 8, &mut first));
    assert!(rgb_to_colored_ascii(&copy, 9, 8, &mut second));
    assert_eq!(first, second);
}

#[test]
fn cells_match_the_formulas_in_floats() {
    let width: usize = 9;
    let height: usize = 4;
    let raster: Vec<u8> = scrambled(width * height * 3, 99);
    for percent in [100u16, 105].iter() {
        let frame: Vec<Vec<Glyph>> = compose_frame(&raster, width, height, *percent).unwrap();
        for row in 0..height / 2 {
            for x in 0..width {
                let top: usize = (2 * row * width + x) * 3;
                let bottom: usize = ((2 * row + 1) * width + x) * 3;
                let (symbol, color) = float_glyph(
                    (raster[top], raster[top + 1], raster[top + 2]),
                    (raster[bottom], raster[bottom + 1], raster[bottom + 2]),
                    *percent as f64,
                );
                assert_eq!(frame[row][x].symbol, symbol);
                assert_eq!(frame[row][x].color, rgb(color.0, color.1, color.2));
            }
        }
    }
}
