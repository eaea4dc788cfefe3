//! The text of the programs that the recognition engine is run with.
//!
//! Each program is a fixed text with a few holes; the constants here are the
//! pieces between the holes.

use vstd::prelude::*;

verus! {

/// The script up to the path of the audio file.
pub const SCRIPT_OPENING: &'static str = r#"
import whisper
import sys
import warnings
import os
import numpy as np
warnings.filterwarnings("ignore")

try:
    audio_file = '"#;

/// From the path of the audio file to the first mention of the model.
pub const SCRIPT_AFTER_PATH: &'static str = r#"'
    if not os.path.exists(audio_file):
        print(f"Error: Audio file not found: {audio_file}", file=sys.stderr)
        sys.exit(1)
    
    # ファイルサイズチェック
    file_size = os.path.getsize(audio_file)
    if file_size == 0:
        print("Audio file is empty", file=sys.stderr)
        sys.exit(1)
    
    print(f"Loading model: "#;

/// From the first mention of the model to its loading.
pub const SCRIPT_AFTER_MODEL_NOTE: &'static str = r#" (optimized for Japanese)", file=sys.stderr)
    model = whisper.load_model('"#;

/// From the loading of the model to the options of the first transcription.
pub const SCRIPT_AFTER_MODEL: &'static str = r#"')
    
    print(f"Transcribing file: {audio_file} ({file_size} bytes) with Japanese optimization", file=sys.stderr)
    
    # 音声前処理（ノイズ除去とボリューム正規化）
    try:
        import librosa
        # librosaで音声を読み込み、前処理
        audio_data, sr = librosa.load(audio_file, sr=16000)
        # RMSベースのボリューム正規化
        rms = np.sqrt(np.mean(audio_data**2))
        if rms > 0:
            target_rms = 0.1
            audio_data = audio_data * (target_rms / rms)
        # 無音部分の除去
        audio_data, _ = librosa.effects.trim(audio_data, top_db=30)
        print(f"Audio preprocessing completed with librosa", file=sys.stderr)
        
        # 前処理済み音声でトランスクリプション
        result = model.transcribe(
            audio_data,
            "#;

/// From the options of the first transcription to those of the second.
pub const SCRIPT_BETWEEN_OPTIONS: &'static str = r#"
        )
    except ImportError:
        print(f"librosa not available, using direct file processing", file=sys.stderr)
        # 日本語最適化設定でトランスクリプション実行（ファイル直接）
        result = model.transcribe(
            audio_file,
            "#;

/// From the options of the second transcription to the language test.
pub const SCRIPT_AFTER_OPTIONS: &'static str = r#"
        )
    
    text = result.get('text', '').strip()
    
    # デバッグ情報を出力
    if 'segments' in result:
        total_segments = len(result['segments'])
        print(f"Processed {total_segments} audio segments", file=sys.stderr)
        
        # 信頼度の低いセグメントを検出
        low_confidence_segments = 0
        for segment in result['segments']:
            if 'avg_logprob' in segment and segment['avg_logprob'] < -0.8:
                low_confidence_segments += 1
        
        if low_confidence_segments > 0:
            print(f"Warning: {low_confidence_segments} segments have low confidence", file=sys.stderr)
    
    if not text:
        # 実際の音声が認識できない場合
        print(f"Warning: No text could be transcribed from audio", file=sys.stderr)
        print(f"Audio file size: {file_size} bytes", file=sys.stderr)
        print("音声が認識できませんでした。より明瞭に話すか、マイクの距離を近づけてください。")
    else:
        # 日本語の場合、後処理で改善
        if '"#;

/// From the language test to the end of the script.
pub const SCRIPT_CLOSING: &'static str = r#"' == 'ja':
            # 日本語特有の後処理
            import re
            
            # プロンプトテキストと幻覚パターンの除去
            hallucination_patterns = [
                '日本語の音声です：',
                '以下は日本語の音声です：',
                '日本語の音声です。',
                '以下は日本語の音声です。',
                'お疲れ様でした。',
                '次回はお楽しみに',
                'ありがとうございました。',
                'ご視聴ありがとうございました'
            ]
            
            for pattern in hallucination_patterns:
                # 幻覚パターンの除去
                while pattern in text:
                    text = text.replace(pattern, '', 1).strip()
            
            # 不要な空白を削除
            text = re.sub(r'\s+', ' ', text).strip()
            # 句読点の正規化
            text = text.replace('、', '、').replace('。', '。')
            # 英数字周りのスペース調整
            text = re.sub(r'([ぁ-んァ-ヶ一-龯])([A-Za-z0-9])', r'\1 \2', text)
            text = re.sub(r'([A-Za-z0-9])([ぁ-んァ-ヶ一-龯])', r'\1 \2', text)
            
            # 空の結果になった場合のハンドリング
            if not text.strip():
                text = "音声を認識できませんでした。"
        
        print(text)
        
except Exception as e:
    print(f"Error: {e}", file=sys.stderr)
    import traceback
    traceback.print_exc(file=sys.stderr)
    sys.exit(1)
"#;

/// The options of a transcription in Japanese.
pub const JAPANESE_OPTIONS: &'static str = r#"language='ja',
                task='transcribe',
                temperature=0.2,
                best_of=1,
                beam_size=1,
                patience=1.0,
                length_penalty=1.0,
                suppress_tokens=[-1],
                word_timestamps=False,
                condition_on_previous_text=True"#;

/// The download program up to the first mention of the model.
pub const DOWNLOAD_OPENING: &'static str = r#"
import whisper
import sys
import warnings
warnings.filterwarnings("ignore")

try:
    print(f"Downloading model: "#;

/// From the first mention of the model to its loading.
pub const DOWNLOAD_BEFORE_LOAD: &'static str = r#"", file=sys.stderr)
    model = whisper.load_model('"#;

/// From the loading of the model to the report of success.
pub const DOWNLOAD_AFTER_LOAD: &'static str = r#"')
    print(f"Model "#;

/// From the report of success to the report of failure.
pub const DOWNLOAD_BEFORE_ERROR: &'static str = r#" loaded successfully", file=sys.stderr)
except Exception as e:
    print(f"Error downloading model "#;

/// From the report of failure to the end of the program.
pub const DOWNLOAD_CLOSING: &'static str = r#": {e}", file=sys.stderr)
    sys.exit(1)
"#;

} // verus!
