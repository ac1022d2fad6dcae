# pixel_audio

Plays an image as sound. The raw channel bytes of the image are grouped into
pixels, each pair of neighbouring pixels gives the tone of one segment (the sum
of the products of their channel values), and the samples of the generated
waveform are streamed to the audio output.

- `src/` is the verified library: pixel grouping (`pixels`), the tones of the
  segments and the tone table with its laws (`frequency`), and the sample
  streams handed to the audio output (`playback`).
- `app/` is the program: reading the image, the floating-point sine waveform,
  the thread pool and the audio output.
