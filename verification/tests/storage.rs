use wav_player::channel::END_OF_STREAM;
use wav_player::storage::{ProducerStep, StorageReader, CHUNK_LEN};

/// Feeds the asset to a producer whose words are always taken.
fn words_of(asset: &[u8]) -> (Vec<u32>, usize) {
    let mut reader = StorageReader::new();
    let mut words = Vec::new();
    let mut offset = 0;
    let mut reads = 0;
    loop {
        match reader.next_step() {
            ProducerStep::ReadChunk => {
                let amount = core::cmp::min(CHUNK_LEN, asset.len() - offset);
                reader.chunk_read(&asset[offset..offset + amount]);
                offset += amount;
                reads += 1;
            }
            ProducerStep::Write(word) => {
                words.push(word);
                reader.word_written();
            }
            ProducerStep::Finished => return (words, reads),
        }
    }
}

fn asset_of(samples: usize) -> Vec<u8> {
    let mut asset = vec![0xAAu8; 44];
    for i in 0..samples {
        asset.push((i % 200) as u8);
    }
    asset
}

fn expected_words(samples: usize) -> Vec<u32> {
    let mut words: Vec<u32> = (0..samples).map(|i| (i % 200) as u32).collect();
    words.push(END_OF_STREAM);
    words
}

#[test]
fn producer_starts_with_a_read() {
    let reader = StorageReader::new();
    assert_eq!(reader.next_step(), ProducerStep::ReadChunk);
    assert_eq!(CHUNK_LEN, 128);
}

#[test]
fn header_is_passed_over() {
    let (words, reads) = words_of(&asset_of(3));
    assert_eq!(words, vec![0, 1, 2, END_OF_STREAM]);
    assert_eq!(reads, 1);
}

#[test]
fn header_that_fills_no_chunk() {
    // The header ends inside the first chunk.
    let (words, reads) = words_of(&asset_of(200));
    assert_eq!(words, expected_words(200));
    assert_eq!(reads, 2);
}

#[test]
fn asset_of_whole_chunks_needs_one_more_read() {
    // 44 + 212 bytes are two whole chunks; only an empty read ends them.
    let (words, reads) = words_of(&asset_of(212));
    assert_eq!(words, expected_words(212));
    assert_eq!(reads, 3);
}

#[test]
fn long_asset_is_sent_in_order() {
    let (words, reads) = words_of(&asset_of(988));
    assert_eq!(words, expected_words(988));
    assert_eq!(reads, 9);
}

#[test]
fn short_first_chunk_inside_the_header() {
    let asset = vec![1u8; 30];
    let (words, reads) = words_of(&asset);
    assert_eq!(words, vec![END_OF_STREAM]);
    assert_eq!(reads, 1);
}

#[test]
fn header_alone() {
    let asset = vec![1u8; 44];
    let (words, _) = words_of(&asset);
    assert_eq!(words, vec![END_OF_STREAM]);
}

#[test]
fn short_chunk_ends_reading() {
    let mut reader = StorageReader::new();
    let chunk = [7u8; 50];
    reader.chunk_read(&chunk);
    for _ in 0..6 {
        assert_eq!(reader.next_step(), ProducerStep::Write(7));
        reader.word_written();
    }
    assert_eq!(reader.next_step(), ProducerStep::Write(END_OF_STREAM));
    reader.word_written();
    assert_eq!(reader.next_step(), ProducerStep::Finished);
}

#[test]
fn full_chunk_asks_for_the_next() {
    let mut reader = StorageReader::new();
    let chunk = [7u8; 128];
    reader.chunk_read(&chunk);
    for _ in 0..84 {
        assert_eq!(reader.next_step(), ProducerStep::Write(7));
        reader.word_written();
    }
    assert_eq!(reader.next_step(), ProducerStep::ReadChunk);
    reader.chunk_read(&[]);
    assert_eq!(reader.next_step(), ProducerStep::Write(END_OF_STREAM));
}

#[test]
fn sample_of_value_255_is_no_end() {
    let mut asset = vec![0u8; 44];
    asset.push(255);
    let (words, _) = words_of(&asset);
    assert_eq!(words, vec![255, END_OF_STREAM]);
}
