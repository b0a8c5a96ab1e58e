# autocrop-bot

A Telegram bot that cuts screenshots down to the picture. Send it a photo,
video, GIF or file and it sends back only the content: no status bars, app
chrome, letterbox bars or meme text. Detection is the `autocrop` crate; what
does not look like a screenshot comes back with a note instead of a crop.

| input | how |
|---|---|
| photo, image file (JPEG, PNG, WebP, BMP) | detector on the image, crop written out in the same format (BMP as PNG) |
| video, GIF, video file (MP4/MOV, WebM/MKV, GIF) | detector on a probe frame, then `ffmpeg -vf crop` on the whole clip (audio copied) |

The probe frame is the first frame; if that is black or yields no crop the bot
tries 3 s in, then the last frame. Photos come back as photos, everything else
as the type it arrived in, also where the file is not what its type suggests.

## Layout

`src/` is a library that Verus verifies. It holds every decision of the bot:

- `media`: what a message carries and whether it is worked on;
- `format`: what a file is, told from its first bytes;
- `picture`, `still`: the detector, cutting out its rectangle, writing the crop out;
- `clip`, `ffmpeg`: which frame of a clip decides, and ffmpeg's command lines;
- `naming`, `delivery`: under which name and as what a result goes back;
- `scratch`, `text`: the scratch directory, decimal numbers;
- `job`: one file from download to answer, as a state machine, and `laws`: what
  holds of every job;
- `command`, `startup`: the commands, and the announcement at startup.

The calls into `autocrop` and `teloxide` that the library makes stand in three
functions marked `external_body`; their contracts are the part that is not
proved.

`app/` is the program around it: Telegram, the file system, ffmpeg. It needs
`ffmpeg` on `PATH` and a BotFather token in `TELOXIDE_TOKEN`; `RUST_LOG`
defaults to `info,teloxide=info`.
